//! The application's settings and the rules that fill and refresh them.
//! Reading and writing the TOML file is the application's business.
use vstd::prelude::*;

use crate::models::qr_item::{EccLevel, ExportFormat};
use crate::models::theme::AppTheme;
use crate::text::{chars_of, decimal, decimal_of, push_all, push_str, string_of};
use crate::utils::file_ops::{joined_path, FileOps};

verus! {

/// The port the redirect server listens on unless told otherwise.
pub const DEFAULT_PORT: u16 = 8080;

/// The address of the redirect server at `ip` and `port`.
pub open spec fn server_url(ip: Seq<char>, port: nat) -> Seq<char> {
    "http://"@ + ip + ":"@ + decimal(port)
}

/// The default output folder: `qrcodes` in the home folder, or in the
/// current folder where `$HOME` is unset.
pub open spec fn output_dir_for(home: Option<Seq<char>>) -> Seq<char> {
    match home {
        Some(h) => h + "/qrcodes"@,
        None => "./qrcodes"@,
    }
}

/// Where the settings file lives: `~/.config/qr-utility/config.toml`, or
/// `config.toml` in the current folder where `$HOME` is unset.
pub open spec fn config_file_for(home: Option<Seq<char>>) -> Seq<char> {
    match home {
        Some(h) => joined_path(
            joined_path(joined_path(h, ".config"@), "qr-utility"@),
            "config.toml"@,
        ),
        None => "config.toml"@,
    }
}

/// The image size that follows `size` in the settings menu:
/// 256, 512, 1024, 2048, and back to 256 (from any other size too).
pub open spec fn spec_next_qr_size(size: u32) -> u32 {
    if size == 256 {
        512
    } else if size == 512 {
        1024
    } else if size == 1024 {
        2048
    } else {
        256
    }
}

/// The image size that follows `size` in the settings menu.
pub fn next_qr_size(size: u32) -> (r: u32)
    ensures
        r == spec_next_qr_size(size),
{
    match size {
        256 => 512,
        512 => 1024,
        1024 => 2048,
        _ => 256,
    }
}

/// The address of the redirect server at `ip` and `port`
/// (`http://{ip}:{port}`).
pub fn server_host(ip: &str, port: u16) -> (r: String)
    ensures
        r@ == server_url(ip@, port as nat),
{
    let mut v: Vec<char> = Vec::new();
    push_str(&mut v, "http://");
    push_str(&mut v, ip);
    push_str(&mut v, ":");
    let d = decimal_of(port as u64);
    push_all(&mut v, d.as_slice());
    string_of(v.as_slice())
}

/// The persisted settings of the application.
pub struct AppConfig {
    pub default_output_dir: String,
    pub default_qr_size: u32,
    pub default_ecc_level: EccLevel,
    pub preferred_format: ExportFormat,
    pub theme: AppTheme,
    pub default_quiet_zone: bool,
    pub transparent_bg: bool,
    pub dynamic_server_enabled: bool,
    pub dynamic_server_port: u16,
    pub dynamic_server_host: String,
}

impl AppConfig {
    /// The settings of a first start, `home` being `$HOME` if set and
    /// `lan_ip` the machine's LAN address.
    pub fn with_environment(home: Option<&str>, lan_ip: &str) -> (c: AppConfig)
        ensures
            c.default_output_dir@ == output_dir_for(
                match home {
                    Some(h) => Some(h@),
                    None => None,
                },
            ),
            c.default_qr_size == 512,
            c.default_ecc_level == EccLevel::Medium,
            c.preferred_format == ExportFormat::Png,
            c.theme == AppTheme::Cyberpunk,
            c.default_quiet_zone,
            !c.transparent_bg,
            c.dynamic_server_enabled,
            c.dynamic_server_port == DEFAULT_PORT,
            c.dynamic_server_host@ == server_url(lan_ip@, DEFAULT_PORT as nat),
    {
        let dir = match home {
            Some(h) => {
                let mut v = chars_of(h);
                push_str(&mut v, "/qrcodes");
                string_of(v.as_slice())
            },
            None => "./qrcodes".to_owned(),
        };
        proof {
            reveal_strlit("./qrcodes");
        }
        AppConfig {
            default_output_dir: dir,
            default_qr_size: 512,
            default_ecc_level: EccLevel::Medium,
            preferred_format: ExportFormat::Png,
            theme: AppTheme::Cyberpunk,
            default_quiet_zone: true,
            transparent_bg: false,
            dynamic_server_enabled: true,
            dynamic_server_port: DEFAULT_PORT,
            dynamic_server_host: server_host(lan_ip, DEFAULT_PORT),
        }
    }

    /// Points the server address at `lan_ip` on the configured port, as a
    /// load does so that a moved machine is still reachable.
    pub fn refresh_host(&mut self, lan_ip: &str)
        ensures
            final(self).dynamic_server_host@ == server_url(
                lan_ip@,
                old(self).dynamic_server_port as nat,
            ),
            final(self).default_output_dir == old(self).default_output_dir,
            final(self).default_qr_size == old(self).default_qr_size,
            final(self).default_ecc_level == old(self).default_ecc_level,
            final(self).preferred_format == old(self).preferred_format,
            final(self).theme == old(self).theme,
            final(self).default_quiet_zone == old(self).default_quiet_zone,
            final(self).transparent_bg == old(self).transparent_bg,
            final(self).dynamic_server_enabled == old(self).dynamic_server_enabled,
            final(self).dynamic_server_port == old(self).dynamic_server_port,
    {
        self.dynamic_server_host = server_host(lan_ip, self.dynamic_server_port);
    }

    /// Where the settings file lives, `home` being `$HOME` if set.
    pub fn config_path_for(home: Option<&str>) -> (r: String)
        ensures
            r@ == config_file_for(
                match home {
                    Some(h) => Some(h@),
                    None => None,
                },
            ),
    {
        match home {
            Some(h) => {
                let a = FileOps::join(h, ".config");
                let b = FileOps::join(a.as_str(), "qr-utility");
                FileOps::join(b.as_str(), "config.toml")
            },
            None => "config.toml".to_owned(),
        }
    }
}

/// The size row walks 256, 512, 1024 and 2048 in a cycle; any other size
/// comes back to 256 on the first step.
pub proof fn law_qr_size_cycle(size: u32)
    ensures
        (size == 256 || size == 512 || size == 1024 || size == 2048) ==> spec_next_qr_size(
            spec_next_qr_size(spec_next_qr_size(spec_next_qr_size(size))),
        ) == size,
        !(size == 256 || size == 512 || size == 1024 || size == 2048) ==> spec_next_qr_size(size)
            == 256,
{
}

} // verus!
