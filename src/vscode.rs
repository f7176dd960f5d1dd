use vstd::prelude::*;

use crate::process::{judges_run, run_result, InstallError, Invocation, Platform, RunOutcome};
use crate::text::{join, joined, opt_view};

verus! {

/// The extension identifier that the editor's installer is given.
pub const VSCODE_EXTENSION_ID: &'static str = "WakaTime.vscode-wakatime";

/// An editor of the VS Code family: its display name, its configuration
/// directory under the home directory, the name of its command-line
/// interface, its application bundle on macOS and its install folder on
/// Windows.
pub struct VsCodeFamily {
    pub name: &'static str,
    pub config_subdir: &'static str,
    pub cli_command: &'static str,
    pub macos_app_name: &'static str,
    pub windows_app_folder: &'static str,
}

impl VsCodeFamily {
    pub open spec fn spec_config_dir(self, home: Seq<char>) -> Seq<char> {
        joined(home, self.config_subdir@)
    }

    pub open spec fn mac_app_cli(self) -> Seq<char> {
        "Applications/"@ + self.macos_app_name@ + ".app/Contents/Resources/app/bin/"@ + self.cli_command@
    }

    pub open spec fn windows_cli(self, root: Seq<char>) -> Seq<char> {
        root + "\\"@ + self.windows_app_folder@ + "\\bin\\"@ + self.cli_command@ + ".cmd"@
    }

    /// The known install locations of the command-line interface, in the
    /// order in which they are tried.
    pub open spec fn spec_fallback_paths(
        self,
        platform: Platform,
        home: Option<Seq<char>>,
        local_app_data: Option<Seq<char>>,
        program_files: Option<Seq<char>>,
        program_files_x86: Option<Seq<char>>,
    ) -> Seq<Seq<char>> {
        let cli = self.cli_command@;
        match platform {
            Platform::MacOs => seq!["/"@ + self.mac_app_cli()] + match home {
                Some(h) => seq![joined(h, self.mac_app_cli())],
                None => seq![],
            },
            Platform::Linux => seq!["/usr/bin/"@ + cli, "/usr/local/bin/"@ + cli, "/snap/bin/"@ + cli]
                + match home {
                Some(h) => seq![joined(h, ".local/bin/"@ + cli)],
                None => seq![],
            },
            Platform::Windows => {
                let local = match local_app_data {
                    Some(l) => seq![self.windows_cli(l + "\\Programs"@)],
                    None => seq![],
                };
                let programs = match program_files {
                    Some(p) => seq![self.windows_cli(p)],
                    None => seq![],
                };
                let programs_x86 = match program_files_x86 {
                    Some(p) => seq![self.windows_cli(p)],
                    None => seq![],
                };
                local + programs + programs_x86
            },
            Platform::Other => seq![],
        }
    }

    pub fn name(&self) -> (r: String)
        ensures
            r@ == self.name@,
    {
        String::from_str(self.name)
    }

    /// The editor's configuration directory under `home`.
    pub fn config_dir(&self, home: &str) -> (r: String)
        ensures
            r@ == self.spec_config_dir(home@),
    {
        join(home, self.config_subdir)
    }

    /// The directory of installed extensions, inside the configuration
    /// directory; `None` where the home directory is unknown.
    pub fn extensions_dir(&self, home: Option<&str>) -> (r: Option<String>)
        ensures
            match home {
                Some(h) => r is Some && r->0@ == joined(self.spec_config_dir(h@), "extensions"@),
                None => r is None,
            },
    {
        match home {
            Some(h) => {
                let dir = self.config_dir(h);
                Some(join(dir.as_str(), "extensions"))
            },
            None => None,
        }
    }

    fn windows_cli_under(&self, root: &str) -> (r: String)
        ensures
            r@ == self.windows_cli(root@),
    {
        let mut r = String::from_str(root);
        r.append("\\");
        r.append(self.windows_app_folder);
        r.append("\\bin\\");
        r.append(self.cli_command);
        r.append(".cmd");
        r
    }

    /// The known install locations of the command-line interface, in the
    /// order in which they are tried. The arguments are the user's home
    /// directory and the platform's directories of those names, where known.
    pub fn fallback_paths(
        &self,
        platform: Platform,
        home: Option<&str>,
        local_app_data: Option<&str>,
        program_files: Option<&str>,
        program_files_x86: Option<&str>,
    ) -> (r: Vec<String>)
        ensures
            r.deep_view() == self.spec_fallback_paths(
                platform,
                opt_view(home),
                opt_view(local_app_data),
                opt_view(program_files),
                opt_view(program_files_x86),
            ),
    {
        let cli = self.cli_command;
        let mut paths: Vec<String> = Vec::new();
        match platform {
            Platform::MacOs => {
                let mut app = String::from_str("Applications/");
                app.append(self.macos_app_name);
                app.append(".app/Contents/Resources/app/bin/");
                app.append(cli);
                let mut system = String::from_str("/");
                system.append(app.as_str());
                paths.push(system);
                if let Some(h) = home {
                    paths.push(join(h, app.as_str()));
                }
            },
            Platform::Linux => {
                let mut usr = String::from_str("/usr/bin/");
                usr.append(cli);
                paths.push(usr);
                let mut local = String::from_str("/usr/local/bin/");
                local.append(cli);
                paths.push(local);
                let mut snap = String::from_str("/snap/bin/");
                snap.append(cli);
                paths.push(snap);
                if let Some(h) = home {
                    let mut user = String::from_str(".local/bin/");
                    user.append(cli);
                    paths.push(join(h, user.as_str()));
                }
            },
            Platform::Windows => {
                if let Some(l) = local_app_data {
                    let mut programs = String::from_str(l);
                    programs.append("\\Programs");
                    paths.push(self.windows_cli_under(programs.as_str()));
                }
                if let Some(p) = program_files {
                    paths.push(self.windows_cli_under(p));
                }
                if let Some(p) = program_files_x86 {
                    paths.push(self.windows_cli_under(p));
                }
            },
            Platform::Other => {},
        }
        assert(paths.deep_view() =~= self.spec_fallback_paths(
            platform,
            opt_view(home),
            opt_view(local_app_data),
            opt_view(program_files),
            opt_view(program_files_x86),
        ));
        paths
    }

    /// Installed when the command-line interface resolved or the
    /// configuration directory exists.
    pub fn is_installed(&self, cli: &Option<String>, config_dir_exists: bool) -> (r: bool)
        ensures
            r == (cli is Some || config_dir_exists),
    {
        cli.is_some() || config_dir_exists
    }

    /// The installer run: the resolved command-line interface asked to
    /// install the extension. On Windows, where the interface is a batch
    /// script, it is run through the command shell. Without an interface
    /// there is nothing to run.
    pub fn install(&self, platform: Platform, cli: Option<String>) -> (r: Result<Invocation, InstallError>)
        ensures
            match cli {
                Some(c) => match r {
                    Ok(inv) => if platform == Platform::Windows {
                        inv.program@ == "cmd"@ && inv.args.deep_view() == seq![
                            "/C"@,
                            c@,
                            "--install-extension"@,
                            VSCODE_EXTENSION_ID@,
                        ]
                    } else {
                        inv.program == c && inv.args.deep_view() == seq!["--install-extension"@, VSCODE_EXTENSION_ID@]
                    },
                    Err(_) => false,
                },
                None => match r {
                    Err(InstallError::NotFound { editor }) => editor@ == self.name@,
                    _ => false,
                },
            },
    {
        match cli {
            Some(c) => {
                if platform == Platform::Windows {
                    let r = Invocation {
                        program: String::from_str("cmd"),
                        args: vec![
                            String::from_str("/C"),
                            c,
                            String::from_str("--install-extension"),
                            String::from_str(VSCODE_EXTENSION_ID),
                        ],
                    };
                    assert(r.args.deep_view() =~= seq!["/C"@, c@, "--install-extension"@, VSCODE_EXTENSION_ID@]);
                    Ok(r)
                } else {
                    let r = Invocation {
                        program: c,
                        args: vec![String::from_str("--install-extension"), String::from_str(VSCODE_EXTENSION_ID)],
                    };
                    assert(r.args.deep_view() =~= seq!["--install-extension"@, VSCODE_EXTENSION_ID@]);
                    Ok(r)
                }
            },
            None => Err(InstallError::NotFound { editor: String::from_str(self.name) }),
        }
    }

    /// The outcome of an installation whose installer run ended as
    /// `outcome`.
    pub fn install_result(&self, program: &str, outcome: RunOutcome) -> (r: Result<(), InstallError>)
        ensures
            judges_run(self.name@, program@, outcome, r),
    {
        run_result(self.name, program, outcome)
    }
}

} // verus!
