//! Batch generation from CSV lists of `url,label` rows.
//!
//! The library reads the CSV text, plans each row (validation, encoding,
//! rendering, file name), runs the rows and keeps the tally; the
//! application supplies the file writer and the progress report.
use vstd::prelude::*;
use vstd::utf8::encode_utf8;

use crate::generator::qr::{image_fits, payload_agrees, qr_encoding, ExportPayload, QrGenerator, QrMatrix};
use crate::models::qr_item::{EccLevel, ExportFormat};
use crate::models::theme::AppTheme;
use crate::text::{
    alphanumeric, decimal, decimal_of, is_alphanumeric, push_all, push_str, string_of,
    trim, trimmed_str,
};
use crate::utils::url_validator::{validation, UrlValidator};

verus! {

/// The rows of a CSV text after its header row, each a list of fields, or
/// `None` for a row the csv crate rejects.
pub uninterp spec fn csv_rows(text: Seq<u8>) -> Seq<Option<Seq<Seq<char>>>>;

/// The texts of a list of strings.
pub open spec fn field_texts(fields: Seq<String>) -> Seq<Seq<char>> {
    fields.map_values(|f: String| f@)
}

/// `csv::ReaderBuilder::new().has_headers(true).from_reader(text).records()`,
/// each record read as its fields (`None` for an error). CSV quoting rules
/// and the crate's error cases are not restated, so the rows are named
/// `csv_rows`.
#[verifier::external_body]
fn read_csv_rows(text: &[u8]) -> (r: Vec<Option<Vec<String>>>)
    ensures
        r@.len() == csv_rows(text@).len(),
        forall|i: int|
            0 <= i < r@.len() ==> match #[trigger] r@[i] {
                Some(fields) => csv_rows(text@)[i] == Some(field_texts(fields@)),
                None => csv_rows(text@)[i] is None,
            },
{
    let mut reader = csv::ReaderBuilder::new().has_headers(true).from_reader(text);
    reader.records().map(|rec| rec.ok().map(|fields| fields.iter().map(|f| f.to_string()).collect())).collect()
}

/// The rows of a CSV text that the csv crate accepts, in order.
pub open spec fn accepted_rows(rows: Seq<Option<Seq<Seq<char>>>>) -> Seq<Seq<Seq<char>>>
    decreases rows.len(),
{
    if rows.len() == 0 {
        Seq::empty()
    } else {
        match rows.last() {
            Some(f) => accepted_rows(rows.drop_last()).push(f),
            None => accepted_rows(rows.drop_last()),
        }
    }
}

/// `d` padded with leading zeros to at least three characters.
pub open spec fn pad3(d: Seq<char>) -> Seq<char> {
    if d.len() >= 3 {
        d
    } else {
        Seq::new((3 - d.len()) as nat, |i: int| '0') + d
    }
}

/// A label with every character that is not alphanumeric replaced by `_`.
pub open spec fn safe_label(label: Seq<char>) -> Seq<char> {
    Seq::new(
        label.len(),
        |i: int|
            if alphanumeric(label[i]) {
                label[i]
            } else {
                '_'
            },
    )
}

/// The file name of batch row `index` (counted from zero) with `label`.
pub open spec fn batch_name(index: nat, label: Seq<char>, format: ExportFormat) -> Seq<char> {
    if label.len() > 0 {
        "qr_"@ + safe_label(label) + "."@ + format.extension_text()
    } else {
        "qr_batch_"@ + pad3(decimal(index + 1)) + "."@ + format.extension_text()
    }
}

/// Field `i` of a record, trimmed; empty if missing.
pub open spec fn field(fields: Seq<Seq<char>>, i: int) -> Seq<char> {
    if i < fields.len() {
        trim(fields[i])
    } else {
        Seq::empty()
    }
}

/// The message of a row that failed with `err`.
pub open spec fn row_error(index: nat, err: Seq<char>) -> Seq<char> {
    "Row "@ + decimal(index + 1) + ": "@ + err
}

/// The message of a row whose URL is invalid.
pub open spec fn row_invalid(index: nat, raw_url: Seq<char>, err: Seq<char>) -> Seq<char> {
    "Row "@ + decimal(index + 1) + " invalid URL '"@ + raw_url + "': "@ + err
}

/// What to do with one row.
#[derive(Debug, Clone)]
pub enum RowPlan {
    /// The row has no fields.
    Skip,
    /// Write `payload` to the file `filename` of the output directory.
    Write { filename: String, payload: ExportPayload },
    /// The row fails with `message`.
    Fail { message: String },
    /// The rendered image would not fit in memory (the image buffer's
    /// length overflows `usize`).
    Oversized,
}

/// The plan of row `index` with fields `fields`.
pub open spec fn plan_agrees(
    r: RowPlan,
    index: nat,
    fields: Seq<Seq<char>>,
    format: ExportFormat,
    ecc: EccLevel,
    theme: AppTheme,
    size: u32,
) -> bool {
    if fields.len() == 0 {
        r is Skip
    } else {
        let raw_url = field(fields, 0);
        let label = field(fields, 1);
        match validation(raw_url) {
            Err(e) => r matches RowPlan::Fail { message } && message@ == row_invalid(index, raw_url, e),
            Ok(url) => match qr_encoding(encode_utf8(url), ecc) {
                Err(e) => r matches RowPlan::Fail { message } && message@ == row_error(
                    index,
                    "Failed to encode data into QR code: "@ + e,
                ),
                Ok((w, cells)) => exists|m: QrMatrix|
                    #![trigger m.size(), m.cells()]
                    m.size() == w && m.cells() == cells && if (format == ExportFormat::Png || format
                        == ExportFormat::Jpeg) && !image_fits(m, size, true) {
                        r is Oversized
                    } else {
                        match r {
                            RowPlan::Write { filename, payload } => filename@ == batch_name(
                                index,
                                label,
                                format,
                            ) && payload_agrees(Ok(payload), m, format, size, true, theme, false),
                            RowPlan::Fail { message } => exists|e: String|
                                payload_agrees(Err(e), m, format, size, true, theme, false)
                                    && message@ == row_error(index, e@),
                            _ => false,
                        }
                    },
            },
        }
    }
}

/// The tally of a batch run.
#[derive(Debug, Clone)]
pub struct BatchResult {
    pub total: usize,
    pub succeeded: usize,
    pub failed: usize,
    pub errors: Vec<String>,
    pub generated_files: Vec<String>,
}

impl BatchResult {
    /// An empty tally for `total` rows.
    pub fn new(total: usize) -> (r: BatchResult)
        ensures
            r.total == total,
            r.succeeded == 0,
            r.failed == 0,
            r.errors@.len() == 0,
            r.generated_files@.len() == 0,
    {
        BatchResult { total, succeeded: 0, failed: 0, errors: Vec::new(), generated_files: Vec::new() }
    }

    /// Counts a written file.
    pub fn record_success(&mut self, path: String)
        requires
            old(self).succeeded < usize::MAX,
        ensures
            final(self).succeeded == old(self).succeeded + 1,
            final(self).generated_files@ == old(self).generated_files@.push(path),
            final(self).total == old(self).total,
            final(self).failed == old(self).failed,
            final(self).errors@ == old(self).errors@,
    {
        self.succeeded = self.succeeded + 1;
        self.generated_files.push(path);
    }

    /// Counts a failed row with its message.
    pub fn record_failure(&mut self, message: String)
        requires
            old(self).failed < usize::MAX,
        ensures
            final(self).failed == old(self).failed + 1,
            final(self).errors@ == old(self).errors@.push(message),
            final(self).total == old(self).total,
            final(self).succeeded == old(self).succeeded,
            final(self).generated_files@ == old(self).generated_files@,
    {
        self.failed = self.failed + 1;
        self.errors.push(message);
    }
}

/// Plans and tallies batch generation.
pub struct BatchGenerator;

impl BatchGenerator {
    /// The rows of a CSV text after its header, skipping rows the csv crate
    /// rejects.
    pub fn records_of(text: &[u8]) -> (r: Vec<Vec<String>>)
        ensures
            texts_of_rows(r@) == accepted_rows(csv_rows(text@)),
    {
        let rows = read_csv_rows(text);
        let mut r: Vec<Vec<String>> = Vec::new();
        let mut i: usize = 0;
        while i < rows.len()
            invariant
                i <= rows@.len(),
                rows@.len() == csv_rows(text@).len(),
                forall|j: int|
                    0 <= j < rows@.len() ==> match #[trigger] rows@[j] {
                        Some(fields) => csv_rows(text@)[j] == Some(field_texts(fields@)),
                        None => csv_rows(text@)[j] is None,
                    },
                texts_of_rows(r@) == accepted_rows(csv_rows(text@).take(i as int)),
            decreases rows@.len() - i,
        {
            proof {
                assert(csv_rows(text@).take(i + 1).drop_last() =~= csv_rows(text@).take(i as int));
            }
            match &rows[i] {
                Some(fields) => {
                    let ghost before = r@;
                    let copy = copy_strings(fields);
                    r.push(copy);
                    proof {
                        assert(texts_of_rows(r@) =~= texts_of_rows(before).push(field_texts(fields@)));
                    }
                },
                None => {},
            }
            i = i + 1;
        }
        proof {
            assert(csv_rows(text@).take(rows@.len() as int) =~= csv_rows(text@));
        }
        r
    }

    /// The file name of row `index` (counted from zero) with `label`:
    /// `qr_<label>.<ext>` with non-alphanumeric characters replaced by `_`,
    /// or `qr_batch_<row number, three digits at least>.<ext>` without a label.
    pub fn batch_filename(index: usize, label: &[char], format: ExportFormat) -> (r: String)
        requires
            index < usize::MAX,
        ensures
            r@ == batch_name(index as nat, label@, format),
    {
        let mut v: Vec<char> = Vec::new();
        if label.len() > 0 {
            push_str(&mut v, "qr_");
            let ghost start = v@;
            let mut i: usize = 0;
            while i < label.len()
                invariant
                    i <= label@.len(),
                    start == "qr_"@,
                    v@ == start + safe_label(label@).take(i as int),
                decreases label@.len() - i,
            {
                let c = label[i];
                if is_alphanumeric(c) {
                    v.push(c);
                } else {
                    v.push('_');
                }
                proof {
                    assert(safe_label(label@).take(i + 1) =~= safe_label(label@).take(i as int).push(
                        safe_label(label@)[i as int],
                    ));
                }
                i = i + 1;
            }
            proof {
                assert(safe_label(label@).take(label@.len() as int) =~= safe_label(label@));
            }
        } else {
            push_str(&mut v, "qr_batch_");
            let d = decimal_of((index + 1) as u64);
            let mut k = d.len();
            while k < 3
                invariant
                    d@.len() <= k,
                    k <= 3 || k == d@.len(),
                    v@ == "qr_batch_"@ + Seq::new((k - d@.len()) as nat, |i: int| '0'),
                decreases 3 - k,
            {
                v.push('0');
                proof {
                    assert(v@ =~= "qr_batch_"@ + Seq::new((k + 1 - d@.len()) as nat, |i: int| '0'));
                }
                k = k + 1;
            }
            push_all(&mut v, d.as_slice());
            proof {
                if d@.len() >= 3 {
                    assert(k == d@.len());
                    assert(Seq::new(0, |i: int| '0') + d@ =~= d@);
                } else {
                    assert(k == 3);
                }
                assert(v@ =~= "qr_batch_"@ + pad3(decimal((index + 1) as nat)));
            }
        }
        push_str(&mut v, ".");
        push_str(&mut v, format.extension());
        string_of(v.as_slice())
    }

    /// The message of row `index` (counted from zero) failing with `err`.
    pub fn row_error_message(index: usize, err: &str) -> (r: String)
        requires
            index < usize::MAX,
        ensures
            r@ == row_error(index as nat, err@),
    {
        let mut v: Vec<char> = Vec::new();
        push_str(&mut v, "Row ");
        push_all(&mut v, decimal_of((index + 1) as u64).as_slice());
        push_str(&mut v, ": ");
        push_str(&mut v, err);
        string_of(v.as_slice())
    }

    /// The plan of row `index` (counted from zero): validate the first field
    /// as a URL, encode it, render it in `format` at `size` with a quiet zone
    /// and an opaque background, and name the file after the second field.
    pub fn plan_row(
        index: usize,
        fields: &Vec<String>,
        format: ExportFormat,
        ecc: EccLevel,
        theme: AppTheme,
        size: u32,
    ) -> (r: RowPlan)
        requires
            index < usize::MAX,
        ensures
            plan_agrees(r, index as nat, field_texts(fields@), format, ecc, theme, size),
    {
        let ghost fs = field_texts(fields@);
        if fields.len() == 0 {
            return RowPlan::Skip;
        }
        let raw_url = trimmed_str(fields[0].as_str());
        let label = if fields.len() > 1 {
            trimmed_str(fields[1].as_str())
        } else {
            Vec::new()
        };
        proof {
            assert(raw_url@ == field(fs, 0));
            assert(label@ == field(fs, 1));
        }
        let raw_text = string_of(raw_url.as_slice());
        match UrlValidator::validate(raw_text.as_str()) {
            Err(e) => {
                let mut v: Vec<char> = Vec::new();
                push_str(&mut v, "Row ");
                push_all(&mut v, decimal_of((index + 1) as u64).as_slice());
                push_str(&mut v, " invalid URL '");
                push_all(&mut v, raw_url.as_slice());
                push_str(&mut v, "': ");
                push_str(&mut v, e.as_str());
                RowPlan::Fail { message: string_of(v.as_slice()) }
            },
            Ok(url) => match QrGenerator::create_qr(url.as_str(), ecc) {
                Err(e) => RowPlan::Fail { message: Self::row_error_message(index, e.as_str()) },
                Ok(qr) => {
                    let image = format == ExportFormat::Png || format == ExportFormat::Jpeg;
                    if image && !QrGenerator::fits_in_memory(&qr, size, true) {
                        return RowPlan::Oversized;
                    }
                    let filename = Self::batch_filename(index, label.as_slice(), format);
                    match QrGenerator::export_payload(&qr, format, size, true, theme, false) {
                        Ok(payload) => RowPlan::Write { filename, payload },
                        Err(e) => {
                            let message = Self::row_error_message(index, e.as_str());
                            proof {
                                assert(payload_agrees(Err(e), qr, format, size, true, theme, false));
                            }
                            RowPlan::Fail { message }
                        },
                    }
                },
            },
        }
    }
}

/// The number of rows with at least one field: those a batch run counts.
pub open spec fn filled_rows(rows: Seq<Vec<String>>) -> nat
    decreases rows.len(),
{
    if rows.len() == 0 {
        0
    } else {
        filled_rows(rows.drop_last()) + (if rows.last()@.len() > 0 {
            1nat
        } else {
            0nat
        })
    }
}

/// At most every row is a filled one.
proof fn lemma_filled_rows_bound(rows: Seq<Vec<String>>)
    ensures
        filled_rows(rows) <= rows.len(),
    decreases rows.len(),
{
    if rows.len() > 0 {
        lemma_filled_rows_bound(rows.drop_last());
    }
}

/// The messages a run records, in row order, for the rows planned as
/// `plans` and the writer's answers `outs`: a failed plan's message, and for
/// a planned file that could not be written, the row's error with the
/// writer's text.
pub open spec fn run_errors(plans: Seq<RowPlan>, outs: Seq<Result<String, String>>) -> Seq<Seq<char>>
    decreases plans.len(),
{
    if plans.len() == 0 {
        Seq::empty()
    } else {
        let i = plans.len() - 1;
        let prev = run_errors(plans.drop_last(), outs.drop_last());
        match plans.last() {
            RowPlan::Fail { message } => prev.push(message@),
            RowPlan::Write { .. } => match outs[i] {
                Ok(_) => prev,
                Err(e) => prev.push(row_error(i as nat, e@)),
            },
            _ => prev,
        }
    }
}

/// The paths a run records, in row order: those the writer answered for the
/// planned files it wrote.
pub open spec fn run_files(plans: Seq<RowPlan>, outs: Seq<Result<String, String>>) -> Seq<Seq<char>>
    decreases plans.len(),
{
    if plans.len() == 0 {
        Seq::empty()
    } else {
        let i = plans.len() - 1;
        let prev = run_files(plans.drop_last(), outs.drop_last());
        match plans.last() {
            RowPlan::Write { .. } => match outs[i] {
                Ok(path) => prev.push(path@),
                Err(_) => prev,
            },
            _ => prev,
        }
    }
}

/// The progress reports of a run over `rows` of `total` rows: for each
/// filled row, its number (counted from one), the row count and its URL.
pub open spec fn run_progress(rows: Seq<Vec<String>>, total: nat) -> Seq<(nat, nat, Seq<char>)>
    decreases rows.len(),
{
    if rows.len() == 0 {
        Seq::empty()
    } else {
        let prev = run_progress(rows.drop_last(), total);
        if rows.last()@.len() > 0 {
            prev.push((rows.len(), total, field(field_texts(rows.last()@), 0)))
        } else {
            prev
        }
    }
}

/// The plain view of progress reports.
pub open spec fn progress_texts(events: Seq<(usize, usize, String)>) -> Seq<(nat, nat, Seq<char>)> {
    events.map_values(|e: (usize, usize, String)| (e.0 as nat, e.1 as nat, e.2@))
}

/// `plans` are the plans of the first rows of `records`, in order.
pub open spec fn plans_agree(
    plans: Seq<RowPlan>,
    records: Seq<Vec<String>>,
    format: ExportFormat,
    ecc: EccLevel,
    theme: AppTheme,
    size: u32,
) -> bool {
    &&& plans.len() <= records.len()
    &&& forall|i: int|
        0 <= i < plans.len() ==> #[trigger] plan_agrees(
            plans[i],
            i as nat,
            field_texts(records[i]@),
            format,
            ecc,
            theme,
            size,
        )
}

impl BatchGenerator {
    /// Runs the batch over `records`: each row is planned (see `plan_row`);
    /// a planned file is handed to `write` with its name, which answers with
    /// the written path or the text of its error; each filled row is then
    /// reported to `progress` with its number, the row count and its URL.
    /// Empty rows are skipped. The tally records, in row order, the path of
    /// every file written and the message of every row that failed (see
    /// `run_files`, `run_errors`); the progress reports made are returned
    /// too. The run stops with `None` at the first row whose image would not
    /// fit in memory.
    pub fn run_batch<W, P>(
        records: &Vec<Vec<String>>,
        format: ExportFormat,
        ecc: EccLevel,
        theme: AppTheme,
        size: u32,
        write: W,
        progress: P,
    ) -> (r: Option<(BatchResult, Vec<(usize, usize, String)>)>) where
        W: Fn(String, ExportPayload) -> Result<String, String>,
        P: Fn(usize, usize, String),

        requires
            records@.len() < usize::MAX,
            forall|name: String, payload: ExportPayload| #[trigger] write.requires((name, payload)),
            forall|row: usize, total: usize, url: String| #[trigger] progress.requires((row, total, url)),
        ensures
            exists|plans: Seq<RowPlan>, outs: Seq<Result<String, String>>|
                #![trigger plans_agree(plans, records@, format, ecc, theme, size), outs.len()]
                {
                    &&& plans_agree(plans, records@, format, ecc, theme, size)
                    &&& outs.len() == plans.len()
                    &&& forall|i: int|
                        0 <= i < plans.len() ==> (#[trigger] plans[i] matches RowPlan::Write {
                            filename,
                            payload,
                        } ==> call_ensures(write, (filename, payload), outs[i]))
                    &&& forall|i: int| 0 <= i < plans.len() - 1 ==> !(#[trigger] plans[i] is Oversized)
                    &&& match r {
                        Some((res, events)) => {
                            &&& plans.len() == records@.len()
                            &&& plans.len() == 0 || !(plans.last() is Oversized)
                            &&& res.total == records@.len()
                            &&& field_texts(res.generated_files@) == run_files(plans, outs)
                            &&& field_texts(res.errors@) == run_errors(plans, outs)
                            &&& res.succeeded == res.generated_files@.len()
                            &&& res.failed == res.errors@.len()
                            &&& res.succeeded + res.failed == filled_rows(records@)
                            &&& progress_texts(events@) == run_progress(records@, records@.len() as nat)
                        },
                        None => plans.len() > 0 && plans.last() is Oversized,
                    }
                },
    {
        let total = records.len();
        let mut result = BatchResult::new(total);
        let mut events: Vec<(usize, usize, String)> = Vec::new();
        let ghost mut plans: Seq<RowPlan> = Seq::empty();
        let ghost mut outs: Seq<Result<String, String>> = Seq::empty();
        let mut i: usize = 0;
        while i < total
            invariant
                total == records@.len(),
                total < usize::MAX,
                i <= total,
                plans.len() == i,
                outs.len() == i,
                plans_agree(plans, records@, format, ecc, theme, size),
                forall|k: int|
                    0 <= k < plans.len() ==> (#[trigger] plans[k] matches RowPlan::Write {
                        filename,
                        payload,
                    } ==> call_ensures(write, (filename, payload), outs[k])),
                forall|k: int| 0 <= k < plans.len() ==> !(#[trigger] plans[k] is Oversized),
                result.total == total,
                result.succeeded + result.failed == filled_rows(records@.take(i as int)),
                field_texts(result.generated_files@) == run_files(plans, outs),
                field_texts(result.errors@) == run_errors(plans, outs),
                result.errors@.len() == result.failed,
                result.generated_files@.len() == result.succeeded,
                progress_texts(events@) == run_progress(records@.take(i as int), total as nat),
                forall|name: String, payload: ExportPayload| #[trigger] write.requires((name, payload)),
                forall|row: usize, total: usize, url: String| #[trigger] progress.requires((row, total, url)),
            decreases total - i,
        {
            proof {
                assert(records@.take(i + 1).drop_last() =~= records@.take(i as int));
                lemma_filled_rows_bound(records@.take(i as int));
            }
            let fields = &records[i];
            let plan = Self::plan_row(i, fields, format, ecc, theme, size);
            let ghost planned = plan;
            let ghost before_plans = plans;
            let ghost before_outs = outs;
            let ghost before_files = result.generated_files@;
            let ghost before_errors = result.errors@;
            let ghost mut answer: Result<String, String> = arbitrary();
            match plan {
                RowPlan::Skip => {},
                RowPlan::Oversized => {
                    proof {
                        plans = plans.push(planned);
                        outs = outs.push(answer);
                        assert forall|k: int| 0 <= k < plans.len() implies #[trigger] plan_agrees(
                            plans[k],
                            k as nat,
                            field_texts(records@[k]@),
                            format,
                            ecc,
                            theme,
                            size,
                        ) by {
                            if k < i {
                                assert(plans[k] == before_plans[k]);
                            }
                        }
                        assert forall|k: int| 0 <= k < plans.len() implies (#[trigger] plans[k] matches RowPlan::Write {
                            filename,
                            payload,
                        } ==> call_ensures(write, (filename, payload), outs[k])) by {
                            if k < i {
                                assert(plans[k] == before_plans[k]);
                                assert(outs[k] == before_outs[k]);
                            }
                        }
                        assert forall|k: int| 0 <= k < plans.len() - 1 implies !(#[trigger] plans[k] is Oversized) by {
                            assert(plans[k] == before_plans[k]);
                        }
                        assert(plans_agree(plans, records@, format, ecc, theme, size));
                        assert(plans.last() == planned);
                        assert(outs.len() == plans.len());
                        assert(plans.len() > 0 && plans.last() is Oversized);
                    }
                    return None;
                },
                RowPlan::Fail { message } => {
                    result.record_failure(message);
                },
                RowPlan::Write { filename, payload } => {
                    let out = write(filename, payload);
                    proof {
                        answer = out;
                    }
                    match out {
                        Ok(path) => result.record_success(path),
                        Err(e) => result.record_failure(Self::row_error_message(i, e.as_str())),
                    }
                },
            }
            proof {
                plans = plans.push(planned);
                outs = outs.push(answer);
                assert(plans.drop_last() =~= before_plans);
                assert(outs.drop_last() =~= before_outs);
                assert forall|k: int| 0 <= k < plans.len() implies #[trigger] plan_agrees(
                    plans[k],
                    k as nat,
                    field_texts(records@[k]@),
                    format,
                    ecc,
                    theme,
                    size,
                ) by {
                    if k < i {
                        assert(plans[k] == before_plans[k]);
                    }
                }
                assert forall|k: int| 0 <= k < plans.len() implies (#[trigger] plans[k] matches RowPlan::Write {
                    filename,
                    payload,
                } ==> call_ensures(write, (filename, payload), outs[k])) by {
                    if k < i {
                        assert(plans[k] == before_plans[k]);
                        assert(outs[k] == before_outs[k]);
                    }
                }
                assert forall|k: int| 0 <= k < plans.len() implies !(#[trigger] plans[k] is Oversized) by {
                    if k < i {
                        assert(plans[k] == before_plans[k]);
                    }
                }
                assert(field_texts(result.generated_files@) =~= run_files(plans, outs));
                assert(field_texts(result.errors@) =~= run_errors(plans, outs));
            }
            let ghost before_events = events@;
            if fields.len() > 0 {
                let raw = trimmed_str(fields[0].as_str());
                let url = string_of(raw.as_slice());
                progress(i + 1, total, url.clone());
                events.push((i + 1, total, url));
            }
            proof {
                assert(records@.take(i + 1).last() == records@[i as int]);
                assert(progress_texts(events@) =~= run_progress(records@.take(i + 1), total as nat));
            }
            i = i + 1;
        }
        proof {
            assert(records@.take(total as int) =~= records@);
        }
        Some((result, events))
    }
}

/// The texts of a list of records.
pub open spec fn texts_of_rows(rows: Seq<Vec<String>>) -> Seq<Seq<Seq<char>>> {
    rows.map_values(|r: Vec<String>| field_texts(r@))
}

/// A copy of a list of strings.
fn copy_strings(v: &Vec<String>) -> (r: Vec<String>)
    ensures
        field_texts(r@) == field_texts(v@),
{
    let mut r: Vec<String> = Vec::new();
    let mut i: usize = 0;
    while i < v.len()
        invariant
            i <= v@.len(),
            r@.len() == i,
            field_texts(r@) == field_texts(v@).take(i as int),
        decreases v@.len() - i,
    {
        let ghost before = r@;
        let c = v[i].clone();
        r.push(c);
        proof {
            assert(c@ == v@[i as int]@);
            assert(field_texts(r@).len() == i + 1);
            assert forall|j: int| 0 <= j <= i implies field_texts(r@)[j] == field_texts(v@).take(i + 1)[j] by {
                if j < i {
                    assert(field_texts(before)[j] == field_texts(v@).take(i as int)[j]);
                }
            }
            assert(field_texts(r@) =~= field_texts(v@).take(i + 1));
        }
        i = i + 1;
    }
    proof {
        assert(field_texts(v@).take(v@.len() as int) =~= field_texts(v@));
    }
    r
}

} // verus!
