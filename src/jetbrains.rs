use vstd::prelude::*;

use crate::process::{is_process_running, judges_run, run_result, spec_reports_running, InstallError, Invocation, Platform, ProbeOutcome, RunOutcome};
use crate::text::{has_prefix, join, joined, opt_view, starts_with, trim, trimmed, views};

verus! {

/// The plugin identifier that the IDE's installer is given.
pub const JETBRAINS_PLUGIN_ID: &'static str = "com.wakatime.intellij.plugin";

/// An IDE family of JetBrains: its display name, the prefixes of its
/// configuration directory names, the name of its launcher, and the names of
/// its application bundles (also its install folders on Windows).
pub struct JetBrainsFamily {
    pub name: &'static str,
    pub product_codes: &'static [&'static str],
    pub cli_command: &'static str,
    pub macos_app_names: &'static [&'static str],
}

/// Where JetBrains keeps the configuration directories of its IDEs.
pub open spec fn spec_config_root(platform: Platform, home: Option<Seq<char>>, app_data: Option<Seq<char>>) -> Option<Seq<char>> {
    match platform {
        Platform::MacOs => match home {
            Some(h) => Some(joined(h, "Library/Application Support/JetBrains"@)),
            None => None,
        },
        Platform::Linux => match home {
            Some(h) => Some(joined(h, ".config/JetBrains"@)),
            None => None,
        },
        Platform::Windows => match app_data {
            Some(a) => Some(joined(a, "JetBrains"@)),
            None => None,
        },
        Platform::Other => None,
    }
}

pub open spec fn mac_bundle_cli(app: Seq<char>, cli: Seq<char>) -> Seq<char> {
    "Applications/"@ + app + ".app/Contents/MacOS/"@ + cli
}

/// The launchers inside the bundles of `apps`: in the system's and then the
/// user's application folder, bundle by bundle.
pub open spec fn mac_cli_paths(apps: Seq<Seq<char>>, cli: Seq<char>, home: Option<Seq<char>>) -> Seq<Seq<char>>
    decreases apps.len(),
{
    if apps.len() == 0 {
        seq![]
    } else {
        let rest = mac_cli_paths(apps.drop_last(), cli, home);
        let system = rest.push("/Applications/"@ + apps.last() + ".app/Contents/MacOS/"@ + cli);
        match home {
            Some(h) => system.push(joined(h, mac_bundle_cli(apps.last(), cli))),
            None => system,
        }
    }
}

/// The batch launchers in the install folders of `apps` under `program_files`.
pub open spec fn windows_program_paths(apps: Seq<Seq<char>>, cli: Seq<char>, program_files: Seq<char>) -> Seq<Seq<char>>
    decreases apps.len(),
{
    if apps.len() == 0 {
        seq![]
    } else {
        windows_program_paths(apps.drop_last(), cli, program_files).push(
            program_files + "/JetBrains/"@ + apps.last() + "/bin/"@ + cli + ".bat"@,
        )
    }
}

impl JetBrainsFamily {
    /// Whether `name` is the name of one of this family's configuration
    /// directories: it begins with one of the product codes.
    pub open spec fn is_product_dir(self, name: Seq<char>) -> bool {
        exists|i: int| 0 <= i < self.product_codes@.len() && has_prefix(name, #[trigger] self.product_codes@[i]@)
    }

    /// The paths under `root` of those `names` that are product directories,
    /// in their order.
    pub open spec fn spec_config_dirs(self, root: Seq<char>, names: Seq<Seq<char>>) -> Seq<Seq<char>>
        decreases names.len(),
    {
        if names.len() == 0 {
            seq![]
        } else {
            let rest = self.spec_config_dirs(root, names.drop_last());
            if self.is_product_dir(names.last()) {
                rest.push(joined(root, names.last()))
            } else {
                rest
            }
        }
    }

    /// The known install locations of the launcher, in the order in which
    /// they are tried.
    pub open spec fn spec_cli_paths(
        self,
        platform: Platform,
        home: Option<Seq<char>>,
        local_app_data: Option<Seq<char>>,
        program_files: Option<Seq<char>>,
    ) -> Seq<Seq<char>> {
        let cli = self.cli_command@;
        match platform {
            Platform::MacOs => mac_cli_paths(views(self.macos_app_names@), cli, home),
            Platform::Linux => {
                let toolbox = match home {
                    Some(h) => seq![joined(h, ".local/share/JetBrains/Toolbox/apps/"@ + cli + "/bin/"@ + cli)],
                    None => seq![],
                };
                toolbox + seq![
                    "/opt/"@ + cli + "/bin/"@ + cli,
                    "/usr/local/bin/"@ + cli,
                    "/snap/bin/"@ + cli,
                ]
            },
            Platform::Windows => {
                let toolbox = match local_app_data {
                    Some(l) => seq![l + "/JetBrains/Toolbox/apps/"@ + cli + "/bin/"@ + cli + ".cmd"@],
                    None => seq![],
                };
                let programs = match program_files {
                    Some(p) => windows_program_paths(views(self.macos_app_names@), cli, p),
                    None => seq![],
                };
                toolbox + programs
            },
            Platform::Other => seq![],
        }
    }

    pub fn name(&self) -> (r: String)
        ensures
            r@ == self.name@,
    {
        String::from_str(self.name)
    }

    /// The directory whose subdirectories are the IDEs' configurations:
    /// under the home directory on macOS and Linux, under the roaming
    /// application data directory on Windows.
    pub fn config_root(platform: Platform, home: Option<&str>, app_data: Option<&str>) -> (r: Option<String>)
        ensures
            match r {
                Some(p) => spec_config_root(platform, opt_view(home), opt_view(app_data)) == Some(p@),
                None => spec_config_root(platform, opt_view(home), opt_view(app_data)) is None,
            },
    {
        match platform {
            Platform::MacOs => match home {
                Some(h) => Some(join(h, "Library/Application Support/JetBrains")),
                None => None,
            },
            Platform::Linux => match home {
                Some(h) => Some(join(h, ".config/JetBrains")),
                None => None,
            },
            Platform::Windows => match app_data {
                Some(a) => Some(join(a, "JetBrains")),
                None => None,
            },
            Platform::Other => None,
        }
    }

    /// Whether `name` begins with one of the product codes.
    pub fn is_product_dir_name(&self, name: &str) -> (r: bool)
        ensures
            r == self.is_product_dir(name@),
    {
        let mut i: usize = 0;
        while i < self.product_codes.len()
            invariant
                0 <= i <= self.product_codes@.len(),
                forall|j: int| 0 <= j < i ==> !has_prefix(name@, #[trigger] self.product_codes@[j]@),
            decreases self.product_codes.len() - i,
        {
            if starts_with(name, self.product_codes[i]) {
                return true;
            }
            i = i + 1;
        }
        false
    }

    /// The configuration directories of this family among the `entries`
    /// (names of the subdirectories of `root`), as paths under `root`.
    pub fn config_dirs(&self, root: &str, entries: &Vec<String>) -> (r: Vec<String>)
        ensures
            r.deep_view() == self.spec_config_dirs(root@, entries.deep_view()),
    {
        let mut r: Vec<String> = Vec::new();
        let mut i: usize = 0;
        while i < entries.len()
            invariant
                0 <= i <= entries.len(),
                r.deep_view() == self.spec_config_dirs(root@, entries.deep_view().subrange(0, i as int)),
            decreases entries.len() - i,
        {
            let ghost r0 = r.deep_view();
            proof {
                assert(entries.deep_view().subrange(0, i + 1).drop_last() =~= entries.deep_view().subrange(0, i as int));
            }
            if self.is_product_dir_name(entries[i].as_str()) {
                r.push(join(root, entries[i].as_str()));
                assert(r.deep_view() =~= r0.push(joined(root@, entries[i as int]@)));
            }
            i = i + 1;
        }
        assert(entries.deep_view().subrange(0, entries.len() as int) =~= entries.deep_view());
        r
    }

    /// The known install locations of the launcher, in the order in which
    /// they are tried. `home`, `local_app_data` and `program_files` are the
    /// user's home directory and the platform's directories of that name,
    /// where known.
    pub fn cli_paths(
        &self,
        platform: Platform,
        home: Option<&str>,
        local_app_data: Option<&str>,
        program_files: Option<&str>,
    ) -> (r: Vec<String>)
        ensures
            r.deep_view() == self.spec_cli_paths(platform, opt_view(home), opt_view(local_app_data), opt_view(program_files)),
    {
        let cli = self.cli_command;
        let apps = self.macos_app_names;
        let mut paths: Vec<String> = Vec::new();
        match platform {
            Platform::MacOs => {
                let mut i: usize = 0;
                while i < apps.len()
                    invariant
                        0 <= i <= apps@.len(),
                        paths.deep_view() == mac_cli_paths(views(apps@.subrange(0, i as int)), cli@, opt_view(home)),
                    decreases apps.len() - i,
                {
                    let ghost p0 = paths.deep_view();
                    proof {
                        assert(views(apps@.subrange(0, i + 1)).drop_last() =~= views(apps@.subrange(0, i as int)));
                        assert(views(apps@.subrange(0, i + 1)).last() == apps@[i as int]@);
                    }
                    let mut system = String::from_str("/Applications/");
                    system.append(apps[i]);
                    system.append(".app/Contents/MacOS/");
                    system.append(cli);
                    paths.push(system);
                    assert(paths.deep_view() =~= p0.push("/Applications/"@ + apps@[i as int]@ + ".app/Contents/MacOS/"@ + cli@));
                    if let Some(h) = home {
                        let ghost p1 = paths.deep_view();
                        let mut user = String::from_str("Applications/");
                        user.append(apps[i]);
                        user.append(".app/Contents/MacOS/");
                        user.append(cli);
                        paths.push(join(h, user.as_str()));
                        assert(paths.deep_view() =~= p1.push(joined(h@, mac_bundle_cli(apps@[i as int]@, cli@))));
                    }
                    i = i + 1;
                }
                assert(apps@.subrange(0, apps@.len() as int) =~= apps@);
            },
            Platform::Linux => {
                if let Some(h) = home {
                    let mut toolbox = String::from_str(".local/share/JetBrains/Toolbox/apps/");
                    toolbox.append(cli);
                    toolbox.append("/bin/");
                    toolbox.append(cli);
                    paths.push(join(h, toolbox.as_str()));
                }
                let mut opt = String::from_str("/opt/");
                opt.append(cli);
                opt.append("/bin/");
                opt.append(cli);
                paths.push(opt);
                let mut local = String::from_str("/usr/local/bin/");
                local.append(cli);
                paths.push(local);
                let mut snap = String::from_str("/snap/bin/");
                snap.append(cli);
                paths.push(snap);
                assert(paths.deep_view() =~= self.spec_cli_paths(platform, opt_view(home), opt_view(local_app_data), opt_view(program_files)));
            },
            Platform::Windows => {
                if let Some(l) = local_app_data {
                    let mut toolbox = String::from_str(l);
                    toolbox.append("/JetBrains/Toolbox/apps/");
                    toolbox.append(cli);
                    toolbox.append("/bin/");
                    toolbox.append(cli);
                    toolbox.append(".cmd");
                    paths.push(toolbox);
                }
                let ghost toolbox = paths.deep_view();
                if let Some(p) = program_files {
                    let mut i: usize = 0;
                    while i < apps.len()
                        invariant
                            0 <= i <= apps@.len(),
                            paths.deep_view() == toolbox + windows_program_paths(views(apps@.subrange(0, i as int)), cli@, p@),
                        decreases apps.len() - i,
                    {
                        let ghost p0 = paths.deep_view();
                        proof {
                            assert(views(apps@.subrange(0, i + 1)).drop_last() =~= views(apps@.subrange(0, i as int)));
                            assert(views(apps@.subrange(0, i + 1)).last() == apps@[i as int]@);
                        }
                        let mut bat = String::from_str(p);
                        bat.append("/JetBrains/");
                        bat.append(apps[i]);
                        bat.append("/bin/");
                        bat.append(cli);
                        bat.append(".bat");
                        paths.push(bat);
                        proof {
                            let w = views(apps@.subrange(0, i + 1));
                            let e = p@ + "/JetBrains/"@ + apps@[i as int]@ + "/bin/"@ + cli@ + ".bat"@;
                            assert(paths.deep_view() =~= p0.push(e));
                            assert(windows_program_paths(w, cli@, p@) == windows_program_paths(w.drop_last(), cli@, p@).push(e));
                        }
                        assert(paths.deep_view() =~= toolbox + windows_program_paths(views(apps@.subrange(0, i + 1)), cli@, p@));
                        i = i + 1;
                    }
                    assert(apps@.subrange(0, apps@.len() as int) =~= apps@);
                }
                assert(paths.deep_view() =~= self.spec_cli_paths(platform, opt_view(home), opt_view(local_app_data), opt_view(program_files)));
            },
            Platform::Other => {
                assert(paths.deep_view() =~= seq![]);
            },
        }
        paths
    }

    /// Installed when a configuration directory of the family was found or
    /// its launcher resolved.
    pub fn is_installed(&self, config_dirs: &Vec<String>, cli: &Option<String>) -> (r: bool)
        ensures
            r == (config_dirs.len() > 0 || cli is Some),
    {
        config_dirs.len() > 0 || cli.is_some()
    }

    /// Whether the IDE runs, as the process-table report for its launcher
    /// name tells.
    pub fn is_running(&self, platform: Platform, outcome: &ProbeOutcome) -> (r: bool)
        ensures
            r == spec_reports_running(platform, self.cli_command@, *outcome),
    {
        is_process_running(platform, self.cli_command, outcome)
    }

    /// The advice shown when the IDE runs during installation.
    pub fn running_warning(&self) -> (r: String)
        ensures
            r@ == "Warning: "@ + self.name@ + " appears to be running. Please close it for the plugin to install correctly."@,
    {
        let mut r = String::from_str("Warning: ");
        r.append(self.name);
        r.append(" appears to be running. Please close it for the plugin to install correctly.");
        r
    }

    /// The installer run: the resolved launcher asked to install the
    /// plugin. Without a launcher there is nothing to run.
    pub fn install(&self, cli: Option<String>) -> (r: Result<Invocation, InstallError>)
        ensures
            match cli {
                Some(c) => match r {
                    Ok(inv) => inv.program == c && inv.args.deep_view() == seq!["installPlugins"@, JETBRAINS_PLUGIN_ID@],
                    Err(_) => false,
                },
                None => match r {
                    Err(InstallError::NotFound { editor }) => editor@ == self.name@,
                    _ => false,
                },
            },
    {
        match cli {
            Some(c) => {
                let r = Invocation {
                    program: c,
                    args: vec![String::from_str("installPlugins"), String::from_str(JETBRAINS_PLUGIN_ID)],
                };
                assert(r.args.deep_view() =~= seq!["installPlugins"@, JETBRAINS_PLUGIN_ID@]);
                Ok(r)
            },
            None => Err(InstallError::NotFound { editor: String::from_str(self.name) }),
        }
    }

    /// The outcome of an installation whose installer run ended as
    /// `outcome`.
    pub fn install_result(&self, program: &str, outcome: RunOutcome) -> (r: Result<(), InstallError>)
        ensures
            judges_run(self.name@, program@, outcome, r),
    {
        run_result(self.name, program, outcome)
    }

    /// The query that looks the launcher up on the search path: on Windows
    /// the launcher itself is started, elsewhere `which` is asked.
    pub fn search_query(&self, platform: Platform) -> (r: Invocation)
        ensures
            if platform == Platform::Windows {
                r.program@ == self.cli_command@ && r.args.deep_view() == seq!["--version"@]
            } else {
                r.program@ == "which"@ && r.args.deep_view() == seq![self.cli_command@]
            },
    {
        if platform == Platform::Windows {
            let r = Invocation { program: String::from_str(self.cli_command), args: vec![String::from_str("--version")] };
            assert(r.args.deep_view() =~= seq!["--version"@]);
            r
        } else {
            let r = Invocation { program: String::from_str("which"), args: vec![String::from_str(self.cli_command)] };
            assert(r.args.deep_view() =~= seq![self.cli_command@]);
            r
        }
    }

    /// What the report of [`JetBrainsFamily::search_query`] found: on
    /// Windows the launcher's name when it could be started; elsewhere the
    /// trimmed path that a successful `which` wrote, unless it is empty.
    pub fn search_hit(&self, platform: Platform, outcome: &ProbeOutcome) -> (r: Option<String>)
        ensures
            match outcome {
                ProbeOutcome::Failed => r is None,
                ProbeOutcome::Finished { success, stdout } => if platform == Platform::Windows {
                    r is Some && r->0@ == self.cli_command@
                } else if *success && trimmed(stdout@).len() > 0 {
                    r is Some && r->0@ == trimmed(stdout@)
                } else {
                    r is None
                },
            },
    {
        match outcome {
            ProbeOutcome::Failed => None,
            ProbeOutcome::Finished { success, stdout } => {
                if platform == Platform::Windows {
                    Some(String::from_str(self.cli_command))
                } else if *success {
                    let path = trim(stdout.as_str());
                    if path.unicode_len() > 0 {
                        Some(path)
                    } else {
                        None
                    }
                } else {
                    None
                }
            },
        }
    }
}

} // verus!
