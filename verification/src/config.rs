//! Server setup steps: world-settings generation from the proxy's own
//! configuration file, selection of the saved world to activate, the
//! init-script and save-folder checks, and the startup diagnostics plan.
//!
//! Reading and writing the files, running the script and printing the
//! diagnostics are effects the caller performs; this module fixes what is
//! written, and which check each outcome yields.

use vstd::prelude::*;
use crate::ServerSetupCheck;

verus! {

/// What looking a section up in a configuration document can find.
#[derive(Clone, Copy, PartialEq, Eq, Structural, Debug)]
pub enum SectionShape {
    /// The document is not well-formed TOML.
    ParseFailed,
    /// The document has no top-level entry under the requested key.
    MissingKey,
    /// The entry under the requested key is not a table.
    NotTable,
    /// The entry is a table; its entries were extracted.
    Present,
}

/// The key-value views of extracted section entries.
pub open spec fn entry_views(entries: Seq<(String, String)>) -> Seq<(Seq<char>, Seq<char>)> {
    entries.map_values(|e: (String, String)| (e.0@, e.1@))
}

/// What looking up `key` in the TOML document `content` finds.
pub uninterp spec fn section_shape_of(content: Seq<char>, key: Seq<char>) -> SectionShape;

/// The entries of the table under `key` in the TOML document `content`,
/// each value rendered in TOML notation, in the document's key order.
pub uninterp spec fn section_entries_of(content: Seq<char>, key: Seq<char>) -> Seq<
    (Seq<char>, Seq<char>),
>;

/// Relies on toml: `Table`'s `FromStr` impl (document parsing), `Map::get`
/// and `Value::as_table` (section lookup), and `Value`'s `Display` impl
/// (rendering each value in TOML notation). Each is a function of the
/// document text and the key alone; entries come in the table's own key
/// order, which the crate fixes for a given document.
#[verifier::external_body]
fn read_section(content: &str, key: &str) -> (r: (SectionShape, Vec<(String, String)>))
    ensures
        r.0 == section_shape_of(content@, key@),
        r.0 == SectionShape::Present ==> entry_views(r.1@) == section_entries_of(
            content@,
            key@,
        ),
{
    match content.parse::<toml::Table>() {
        Err(_) => (SectionShape::ParseFailed, Vec::new()),
        Ok(table) => match table.get(key) {
            None => (SectionShape::MissingKey, Vec::new()),
            Some(value) => match value.as_table() {
                None => (SectionShape::NotTable, Vec::new()),
                Some(section) => {
                    let entries = section.iter().map(|(k, v)| (k.clone(), format!("{}", v))).collect();
                    (SectionShape::Present, entries)
                },
            },
        },
    }
}

/// One section entry rendered as `key=value`.
pub open spec fn spec_kv(e: (Seq<char>, Seq<char>)) -> Seq<char> {
    e.0 + "="@ + e.1
}

/// The section's entries rendered `key=value`, joined with commas.
pub open spec fn spec_joined(entries: Seq<(Seq<char>, Seq<char>)>) -> Seq<char>
    decreases entries.len(),
{
    if entries.len() == 0 {
        Seq::empty()
    } else if entries.len() == 1 {
        spec_kv(entries[0])
    } else {
        spec_joined(entries.drop_last()) + ","@ + spec_kv(entries.last())
    }
}

/// The world-settings file the backend reads: one option-settings line
/// holding the section's entries.
pub open spec fn spec_settings_content(entries: Seq<(Seq<char>, Seq<char>)>) -> Seq<char> {
    "[/Script/Pal.PalGameWorldSettings]\nOptionSettings=("@ + spec_joined(entries) + ")\n"@
}

/// The user-settings file naming the saved world to activate.
pub open spec fn spec_world_content(world: Seq<char>) -> Seq<char> {
    "[/Script/Pal.PalGameLocalSettings]\nDedicatedServerName="@ + world + "\n"@
}

proof fn lemma_joined_step(entries: Seq<(Seq<char>, Seq<char>)>, i: int)
    requires
        0 <= i < entries.len(),
    ensures
        spec_joined(entries.take(i + 1)) == if i == 0 {
            spec_kv(entries[0])
        } else {
            spec_joined(entries.take(i)) + ","@ + spec_kv(entries[i])
        },
{
    let t = entries.take(i + 1);
    if i == 0 {
        assert(t[0] == entries[0]);
    } else {
        assert(t.drop_last() =~= entries.take(i));
        assert(t.last() == entries[i]);
    }
}

/// The exact content of the world-settings file for the given section
/// entries.
pub fn settings_content(entries: &Vec<(String, String)>) -> (s: String)
    ensures
        s@ == spec_settings_content(entry_views(entries@)),
{
    let ghost ev = entry_views(entries@);
    let mut joined = String::new();
    let mut i: usize = 0;
    while i < entries.len()
        invariant
            i <= entries.len(),
            ev == entry_views(entries@),
            joined@ == spec_joined(ev.take(i as int)),
        decreases entries.len() - i,
    {
        if i > 0 {
            joined.append(",");
        }
        joined.append(entries[i].0.as_str());
        joined.append("=");
        joined.append(entries[i].1.as_str());
        proof {
            lemma_joined_step(ev, i as int);
            assert(ev[i as int] == (entries@[i as int].0@, entries@[i as int].1@));
            assert(joined@ =~= spec_joined(ev.take(i as int + 1)));
        }
        i += 1;
    }
    proof {
        assert(ev.take(entries@.len() as int) =~= ev);
    }
    String::from_str("[/Script/Pal.PalGameWorldSettings]\nOptionSettings=(").concat(
        joined.as_str(),
    ).concat(")\n")
}

/// The checks and the file content that follow from what the section
/// lookup found.
pub open spec fn spec_settings_result(
    conf: Seq<char>,
    shape: SectionShape,
    entries: Seq<(Seq<char>, Seq<char>)>,
    checks: Seq<ServerSetupCheck>,
    out: Option<String>,
) -> bool {
    match shape {
        SectionShape::ParseFailed => {
            &&& checks.len() == 1
            &&& checks[0].is_error()
            &&& checks[0].spec_message() == "Failed to parse config file "@ + conf
            &&& out is None
        },
        SectionShape::MissingKey => {
            &&& checks.len() == 1
            &&& checks[0].is_error()
            &&& checks[0].spec_message() == "Config file "@ + conf
                + " is missing top level key 'Server'"@
            &&& out is None
        },
        SectionShape::NotTable => {
            &&& checks.len() == 1
            &&& checks[0].is_error()
            &&& checks[0].spec_message() == "Config file "@ + conf
                + " has the wrong value type for 'Server'"@
            &&& out is None
        },
        SectionShape::Present => {
            &&& checks.len() == 0
            &&& out matches Some(c) && c@ == spec_settings_content(entries)
        },
    }
}

/// The checks and file content owed for a section lookup's outcome, with
/// the configuration file's path named in each message.
pub fn settings_from_section(
    conf_path: &str,
    shape: SectionShape,
    entries: &Vec<(String, String)>,
) -> (r: (Vec<ServerSetupCheck>, Option<String>))
    ensures
        spec_settings_result(conf_path@, shape, entry_views(entries@), r.0@, r.1),
{
    match shape {
        SectionShape::ParseFailed => {
            let message = String::from_str("Failed to parse config file ").concat(conf_path);
            (vec![ServerSetupCheck::ERROR { message }], None)
        },
        SectionShape::MissingKey => {
            let message = String::from_str("Config file ").concat(conf_path).concat(
                " is missing top level key 'Server'",
            );
            (vec![ServerSetupCheck::ERROR { message }], None)
        },
        SectionShape::NotTable => {
            let message = String::from_str("Config file ").concat(conf_path).concat(
                " has the wrong value type for 'Server'",
            );
            (vec![ServerSetupCheck::ERROR { message }], None)
        },
        SectionShape::Present => (Vec::new(), Some(settings_content(entries))),
    }
}

/// Generate the world-settings file from the proxy's configuration file.
/// `content` is the configuration document, or None when the file could
/// not be read. On success the checks are empty and the content to write
/// is returned; on each failure, one error check says what went wrong.
pub fn generate_settings(conf_path: &str, content: Option<&str>) -> (r: (
    Vec<ServerSetupCheck>,
    Option<String>,
))
    ensures
        content is None ==> ({
            &&& r.0@.len() == 1
            &&& r.0@[0].is_error()
            &&& r.0@[0].spec_message() == "Failed to open config file "@ + conf_path@
                + ". Make sure it exists and is mounted as readable!"@
            &&& r.1 is None
        }),
        content matches Some(c) ==> spec_settings_result(
            conf_path@,
            section_shape_of(c@, "Server"@),
            section_entries_of(c@, "Server"@),
            r.0@,
            r.1,
        ),
{
    match content {
        None => {
            let message = String::from_str("Failed to open config file ").concat(
                conf_path,
            ).concat(". Make sure it exists and is mounted as readable!");
            (vec![ServerSetupCheck::ERROR { message }], None)
        },
        Some(c) => {
            let (shape, entries) = read_section(c, "Server");
            settings_from_section(conf_path, shape, &entries)
        },
    }
}

/// The check owed after attempting to write `path`.
pub fn write_outcome_check(path: &str, ok: bool) -> (c: ServerSetupCheck)
    ensures
        ok ==> c.is_ok_check() && c.spec_message() == "Successfully created "@ + path@,
        !ok ==> c.is_error() && c.spec_message() == "Could not write "@ + path@,
{
    if ok {
        let message = String::from_str("Successfully created ").concat(path);
        ServerSetupCheck::OK { message }
    } else {
        let message = String::from_str("Could not write ").concat(path);
        ServerSetupCheck::ERROR { message }
    }
}

/// Choose the saved world to activate. `worlds` lists the saved world
/// folders, or is None when the save folder could not be listed. Returns
/// the checks owed before any write, and the user-settings content to
/// write: none when there is no world (a fresh one is created on first
/// backend startup), the first world's content otherwise, with a warning
/// when several worlds were found.
pub fn set_world(worlds_path: &str, worlds: Option<&Vec<String>>) -> (r: (
    Vec<ServerSetupCheck>,
    Option<String>,
))
    ensures
        worlds is None ==> ({
            &&& r.0@.len() == 1
            &&& r.0@[0].is_error()
            &&& r.0@[0].spec_message() == "Could not access world save folder: "@ + worlds_path@
            &&& r.1 is None
        }),
        worlds matches Some(w) ==> ({
            &&& w@.len() == 0 ==> ({
                &&& r.0@.len() == 1
                &&& r.0@[0].is_ok_check()
                &&& r.0@[0].spec_message()
                    == "No saved world, new one will be created on first startup!"@
                &&& r.1 is None
            })
            &&& w@.len() == 1 ==> ({
                &&& r.0@.len() == 0
                &&& r.1 matches Some(c) && c@ == spec_world_content(w@[0]@)
            })
            &&& w@.len() >= 2 ==> ({
                &&& r.0@.len() == 1
                &&& r.0@[0].is_warning()
                &&& r.0@[0].spec_message() == "Multiple saved worlds were found, using "@
                    + w@[0]@ + "!"@
                &&& r.1 matches Some(c) && c@ == spec_world_content(w@[0]@)
            })
        }),
{
    match worlds {
        None => {
            let message = String::from_str("Could not access world save folder: ").concat(
                worlds_path,
            );
            (vec![ServerSetupCheck::ERROR { message }], None)
        },
        Some(w) => {
            if w.len() == 0 {
                let message = String::from_str(
                    "No saved world, new one will be created on first startup!",
                );
                (vec![ServerSetupCheck::OK { message }], None)
            } else {
                let content = String::from_str(
                    "[/Script/Pal.PalGameLocalSettings]\nDedicatedServerName=",
                ).concat(w[0].as_str()).concat("\n");
                if w.len() == 1 {
                    (Vec::new(), Some(content))
                } else {
                    let message = String::from_str("Multiple saved worlds were found, using ")
                        .concat(w[0].as_str()).concat("!");
                    (vec![ServerSetupCheck::WARNING { message }], Some(content))
                }
            }
        },
    }
}

/// How running the optional user-supplied init script went.
#[derive(Clone, Copy, PartialEq, Eq, Structural, Debug)]
pub enum ScriptRun {
    /// No script file exists: nothing to run.
    NotFound,
    /// The script could not be started.
    SpawnFailed,
    /// The script started but waiting for it failed.
    WaitFailed,
    /// The script ran to completion.
    Completed,
}

/// The check owed for the init script's outcome. A missing script is fine;
/// a script that could not be started or awaited is a setup error.
pub fn init_script(run: ScriptRun) -> (r: Vec<ServerSetupCheck>)
    ensures
        r@.len() == 1,
        run == ScriptRun::NotFound ==> r@[0].is_ok_check() && r@[0].spec_message()
            == "No init script was found."@,
        run == ScriptRun::SpawnFailed ==> r@[0].is_error() && r@[0].spec_message()
            == "Custom init script could not be ran"@,
        run == ScriptRun::WaitFailed ==> r@[0].is_error() && r@[0].spec_message()
            == "Custom init script failed"@,
        run == ScriptRun::Completed ==> r@[0].is_ok_check() && r@[0].spec_message()
            == "Custom init script was successful"@,
{
    match run {
        ScriptRun::NotFound => vec![
            ServerSetupCheck::OK { message: String::from_str("No init script was found.") },
        ],
        ScriptRun::SpawnFailed => vec![
            ServerSetupCheck::ERROR {
                message: String::from_str("Custom init script could not be ran"),
            },
        ],
        ScriptRun::WaitFailed => vec![
            ServerSetupCheck::ERROR { message: String::from_str("Custom init script failed") },
        ],
        ScriptRun::Completed => vec![
            ServerSetupCheck::OK {
                message: String::from_str("Custom init script was successful"),
            },
        ],
    }
}

/// The check owed for the save-folder write probe.
pub fn check_requirements(worlds_path: &str, writable: bool) -> (r: Vec<ServerSetupCheck>)
    ensures
        r@.len() == 1,
        writable ==> r@[0].is_ok_check() && r@[0].spec_message() == "Save folder "@ + worlds_path@
            + " is writable"@,
        !writable ==> r@[0].is_error() && r@[0].spec_message() == "Can't write to "@ + worlds_path@
            + ". Make sure it is mounted as writable!"@,
{
    if writable {
        let message = String::from_str("Save folder ").concat(worlds_path).concat(" is writable");
        vec![ServerSetupCheck::OK { message }]
    } else {
        let message = String::from_str("Can't write to ").concat(worlds_path).concat(
            ". Make sure it is mounted as writable!",
        );
        vec![ServerSetupCheck::ERROR { message }]
    }
}

/// What to do with a batch of setup checks.
#[derive(Clone, Copy, PartialEq, Eq, Structural, Debug)]
pub struct PresentPlan {
    /// Print the whole batch.
    pub show: bool,
    /// Abort setup after printing: some check is an error.
    pub fail: bool,
}

/// Decide how a batch of checks is presented: it is shown when it holds an
/// error or when it is the final batch (and is not empty), and setup fails
/// exactly when some check is an error.
pub fn present_plan(checks: &Vec<ServerSetupCheck>, last: bool) -> (p: PresentPlan)
    ensures
        p.fail == exists|i: int| 0 <= i < checks@.len() && checks@[i].is_error(),
        p.show == (checks@.len() > 0 && (p.fail || last)),
{
    let mut fail = false;
    let mut i: usize = 0;
    while i < checks.len()
        invariant
            i <= checks@.len(),
            fail == exists|j: int| 0 <= j < i && checks@[j].is_error(),
        decreases checks@.len() - i,
    {
        if checks[i].failed() {
            fail = true;
        }
        i += 1;
    }
    PresentPlan { show: checks.len() > 0 && (fail || last), fail }
}

/// The heading printed above a presented batch.
pub fn header_line(fail: bool) -> (s: &'static str)
    ensures
        fail ==> s@ == "Saya could not initialize:"@,
        !fail ==> s@ == "Saya successfully initialized:"@,
{
    if fail {
        "Saya could not initialize:"
    } else {
        "Saya successfully initialized:"
    }
}

} // verus!
