//! The state of the History, Batch and Settings tabs.
use vstd::prelude::*;

verus! {

/// The History tab: the selected row and the search box.
pub struct HistoryViewState {
    pub selected_idx: usize,
    pub search_query: String,
    pub is_searching: bool,
}

impl Default for HistoryViewState {
    fn default() -> (r: HistoryViewState)
        ensures
            r.selected_idx == 0,
            r.search_query@ == Seq::<char>::empty(),
            !r.is_searching,
    {
        HistoryViewState { selected_idx: 0, search_query: String::new(), is_searching: false }
    }
}

/// The Batch tab: the CSV path, the progress of the last run and its log.
pub struct BatchViewState {
    pub csv_path_input: String,
    pub is_processing: bool,
    pub current_progress: usize,
    pub total_count: usize,
    pub log_messages: Vec<String>,
}

impl Default for BatchViewState {
    fn default() -> (r: BatchViewState)
        ensures
            r.csv_path_input@ == "links.csv"@,
            !r.is_processing,
            r.current_progress == 0,
            r.total_count == 0,
            r.log_messages@.len() == 0,
    {
        BatchViewState {
            csv_path_input: "links.csv".to_owned(),
            is_processing: false,
            current_progress: 0,
            total_count: 0,
            log_messages: Vec::new(),
        }
    }
}

/// The Settings tab: the selected row.
pub struct ConfigViewState {
    pub selected_idx: usize,
}

impl Default for ConfigViewState {
    fn default() -> (r: ConfigViewState)
        ensures
            r.selected_idx == 0,
    {
        ConfigViewState { selected_idx: 0 }
    }
}

} // verus!
