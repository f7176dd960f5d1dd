use vstd::prelude::*;

use crate::process::{InstallError, Invocation, Platform, ProbeOutcome};
use crate::settings::{patch_outcome, patch_settings, spec_patched, spec_settings_source};
use crate::text::{join, joined, opt_view};

verus! {

/// The Zed editor.
pub struct Zed;

impl Zed {
    /// The query that tells whether the system knows Zed as the handler of
    /// its URL scheme; `None` on a platform without one.
    pub open spec fn spec_url_handler_query(platform: Platform) -> Option<(Seq<char>, Seq<Seq<char>>)> {
        match platform {
            Platform::MacOs => Some(("/usr/bin/open"@, seq!["-Ra"@, "zed"@])),
            Platform::Linux => Some(("xdg-mime"@, seq!["query"@, "default"@, "x-scheme-handler/zed"@])),
            Platform::Windows => Some(("reg"@, seq!["query"@, "HKEY_CLASSES_ROOT\\zed"@])),
            Platform::Other => None,
        }
    }

    /// The places where a Zed binary may be installed, probed on Linux.
    pub open spec fn spec_binary_paths(platform: Platform, home: Option<Seq<char>>) -> Seq<Seq<char>> {
        if platform == Platform::Linux {
            seq!["/usr/bin/zed"@, "/usr/bin/zeditor"@, "/usr/local/bin/zed"@] + match home {
                Some(h) => seq![joined(h, ".local/bin/zed"@)],
                None => seq![],
            }
        } else {
            seq![]
        }
    }

    /// Whether the query's report and the binary probes show Zed: on Linux
    /// a handler that the query named or one existing binary; elsewhere a
    /// query that succeeded.
    pub open spec fn spec_has_url_handler(platform: Platform, query: ProbeOutcome, binaries_exist: Seq<bool>) -> bool {
        match platform {
            Platform::Linux => (match query {
                ProbeOutcome::Finished { success, stdout } => success && stdout@.len() > 0,
                ProbeOutcome::Failed => false,
            }) || exists|i: int| 0 <= i < binaries_exist.len() && binaries_exist[i],
            Platform::Other => false,
            _ => query matches ProbeOutcome::Finished { success: true, .. },
        }
    }

    /// The directory of Zed's configuration.
    pub open spec fn spec_config_dir(
        platform: Platform,
        flatpak_config: Option<Seq<char>>,
        home: Option<Seq<char>>,
        config: Option<Seq<char>>,
    ) -> Option<Seq<char>> {
        match platform {
            Platform::MacOs => match home {
                Some(h) => Some(joined(h, ".config/zed"@)),
                None => None,
            },
            Platform::Linux => match flatpak_config {
                Some(f) => Some(joined(f, "zed"@)),
                None => match config {
                    Some(c) => Some(joined(c, "zed"@)),
                    None => None,
                },
            },
            Platform::Windows => match config {
                Some(c) => Some(joined(c, "Zed"@)),
                None => None,
            },
            Platform::Other => None,
        }
    }

    pub fn name(&self) -> (r: String)
        ensures
            r@ == "Zed"@,
    {
        String::from_str("Zed")
    }

    /// The query that tells whether the system knows Zed as the handler of
    /// its URL scheme; `None` on a platform without one.
    pub fn url_handler_query(platform: Platform) -> (r: Option<Invocation>)
        ensures
            match Self::spec_url_handler_query(platform) {
                Some((program, args)) => r is Some && r->0.program@ == program && r->0.args.deep_view() == args,
                None => r is None,
            },
    {
        match platform {
            Platform::MacOs => {
                let r = Invocation {
                    program: String::from_str("/usr/bin/open"),
                    args: vec![String::from_str("-Ra"), String::from_str("zed")],
                };
                assert(r.args.deep_view() =~= seq!["-Ra"@, "zed"@]);
                Some(r)
            },
            Platform::Linux => {
                let r = Invocation {
                    program: String::from_str("xdg-mime"),
                    args: vec![
                        String::from_str("query"),
                        String::from_str("default"),
                        String::from_str("x-scheme-handler/zed"),
                    ],
                };
                assert(r.args.deep_view() =~= seq!["query"@, "default"@, "x-scheme-handler/zed"@]);
                Some(r)
            },
            Platform::Windows => {
                let r = Invocation {
                    program: String::from_str("reg"),
                    args: vec![String::from_str("query"), String::from_str("HKEY_CLASSES_ROOT\\zed")],
                };
                assert(r.args.deep_view() =~= seq!["query"@, "HKEY_CLASSES_ROOT\\zed"@]);
                Some(r)
            },
            Platform::Other => None,
        }
    }

    /// The places where a Zed binary may be installed, probed on Linux.
    pub fn binary_paths(platform: Platform, home: Option<&str>) -> (r: Vec<String>)
        ensures
            r.deep_view() == Self::spec_binary_paths(platform, opt_view(home)),
    {
        let mut paths: Vec<String> = Vec::new();
        if platform == Platform::Linux {
            paths.push(String::from_str("/usr/bin/zed"));
            paths.push(String::from_str("/usr/bin/zeditor"));
            paths.push(String::from_str("/usr/local/bin/zed"));
            if let Some(h) = home {
                paths.push(join(h, ".local/bin/zed"));
            }
        }
        assert(paths.deep_view() =~= Self::spec_binary_paths(platform, opt_view(home)));
        paths
    }

    /// Whether Zed is installed, from the report of [`Zed::url_handler_query`]
    /// and the existence of each of [`Zed::binary_paths`], in order.
    pub fn has_url_handler(platform: Platform, query: &ProbeOutcome, binaries_exist: &Vec<bool>) -> (r: bool)
        ensures
            r == Self::spec_has_url_handler(platform, *query, binaries_exist@),
    {
        match platform {
            Platform::Linux => {
                if let ProbeOutcome::Finished { success, stdout } = query {
                    if *success && stdout.unicode_len() > 0 {
                        return true;
                    }
                }
                let mut i: usize = 0;
                while i < binaries_exist.len()
                    invariant
                        platform == Platform::Linux,
                        !(query matches ProbeOutcome::Finished { success: true, stdout } && stdout@.len() > 0),
                        0 <= i <= binaries_exist@.len(),
                        forall|j: int| 0 <= j < i ==> !binaries_exist@[j],
                    decreases binaries_exist.len() - i,
                {
                    if binaries_exist[i] {
                        assert(binaries_exist@[i as int]);
                        return true;
                    }
                    i = i + 1;
                }
                false
            },
            Platform::Other => false,
            _ => match query {
                ProbeOutcome::Finished { success, .. } => *success,
                ProbeOutcome::Failed => false,
            },
        }
    }

    /// Installed when the system knows Zed, as [`Zed::has_url_handler`]
    /// decides.
    pub fn is_installed(&self, platform: Platform, query: &ProbeOutcome, binaries_exist: &Vec<bool>) -> (r: bool)
        ensures
            r == Self::spec_has_url_handler(platform, *query, binaries_exist@),
    {
        Self::has_url_handler(platform, query, binaries_exist)
    }

    /// The directory of Zed's configuration: on macOS under the home
    /// directory; on Linux under the Flatpak configuration directory where
    /// one is set, else under the user's configuration directory; on Windows
    /// under the user's configuration directory.
    pub fn config_dir(
        platform: Platform,
        flatpak_config: Option<&str>,
        home: Option<&str>,
        config: Option<&str>,
    ) -> (r: Option<String>)
        ensures
            match Self::spec_config_dir(platform, opt_view(flatpak_config), opt_view(home), opt_view(config)) {
                Some(d) => r is Some && r->0@ == d,
                None => r is None,
            },
    {
        match platform {
            Platform::MacOs => match home {
                Some(h) => Some(join(h, ".config/zed")),
                None => None,
            },
            Platform::Linux => match flatpak_config {
                Some(f) => Some(join(f, "zed")),
                None => match config {
                    Some(c) => Some(join(c, "zed")),
                    None => None,
                },
            },
            Platform::Windows => match config {
                Some(c) => Some(join(c, "Zed")),
                None => None,
            },
            Platform::Other => None,
        }
    }

    /// The settings file: `settings.json` in the configuration directory,
    /// which must be known.
    pub fn settings_path(config_dir: Option<String>) -> (r: Result<String, InstallError>)
        ensures
            match config_dir {
                Some(d) => r is Ok && r->Ok_0@ == joined(d@, "settings.json"@),
                None => match r {
                    Err(InstallError::NoConfigDir { editor }) => editor@ == "Zed"@,
                    _ => false,
                },
            },
    {
        match config_dir {
            Some(d) => Ok(join(d.as_str(), "settings.json")),
            None => Err(InstallError::NoConfigDir { editor: String::from_str("Zed") }),
        }
    }

    /// Installs the extension: the new text of the settings file at `path`,
    /// whose content is `content` (`None` where there is no file), as
    /// [`patch_settings`] makes it. The file is to be written only on
    /// success.
    pub fn install(&self, path: &str, content: Option<&str>) -> (r: Result<String, InstallError>)
        ensures
            patch_outcome(path@, spec_settings_source(opt_view(content)), r),
            r is Ok <==> spec_patched(spec_settings_source(opt_view(content))) is Some,
    {
        patch_settings(path, content)
    }
}

} // verus!
