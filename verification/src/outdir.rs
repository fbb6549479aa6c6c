//! Output-directory naming: the per-invocation batch directory and
//! the per-sample run directory, both created only when capture is
//! enabled. The names weave a configured tag, a generated name, and
//! the local wall-clock time; the weaving is exact, while the clock
//! and the name generator are outside collaborators.

use vstd::prelude::*;
use vstd::string::StringExecFns;
use crate::config::Config;
use crate::errors::Error;

verus! {

/// Relies on chrono::Local::now and chrono's format: the local time
/// written as year-month-day-hourminute. The result depends on the
/// clock, so nothing is promised of it.
#[verifier::external_body]
fn timestamp_minutes() -> (r: String) {
    chrono::Local::now().format("%Y-%m-%d-%H%M").to_string()
}

/// Relies on chrono::Local::now and chrono's format: the local time
/// written as year-month-day-hourminute-fraction, fine enough to
/// distinguish consecutive samples. The result depends on the clock,
/// so nothing is promised of it.
#[verifier::external_body]
fn timestamp_fine() -> (r: String) {
    chrono::Local::now().format("%Y-%m-%d-%H%M-%f").to_string()
}

/// Relies on names::Generator: a random adjective-noun name. The
/// default word lists are non-empty, so a name always comes back;
/// which one is up to the generator.
#[verifier::external_body]
fn generated_name() -> (r: Option<String>)
    ensures
        r is Some,
{
    names::Generator::default().next()
}

/// The batch directory's name: "output", the tag when one is
/// configured, the generated name and the timestamp, dash-joined,
/// under the configured output root when one is given.
pub open spec fn spec_batch_dir_name(
    root: Option<Seq<char>>,
    tag: Option<Seq<char>>,
    name: Seq<char>,
    stamp: Seq<char>,
) -> Seq<char> {
    let file = "output"@ + (match tag {
        Some(t) => "-"@ + t,
        None => Seq::<char>::empty(),
    }) + "-"@ + name + "-"@ + stamp;
    match root {
        Some(p) => p + "/"@ + file,
        None => file,
    }
}

/// Weaves the batch directory name from its parts.
pub fn batch_dir_name_parts(
    output_path: &Option<String>,
    tag: &Option<String>,
    name: &str,
    stamp: &str,
) -> (r: String)
    ensures
        r@ == spec_batch_dir_name(
            match output_path {
                Some(p) => Some(p@),
                None => None,
            },
            match tag {
                Some(t) => Some(t@),
                None => None,
            },
            name@,
            stamp@,
        ),
{
    let mut file = String::from_str("output");
    match tag {
        Some(t) => {
            file.append("-");
            file.append(t.as_str());
        },
        None => {},
    }
    file.append("-");
    file.append(name);
    file.append("-");
    file.append(stamp);
    match output_path {
        Some(p) => {
            let mut r = p.clone();
            r.append("/");
            r.append(file.as_str());
            r
        },
        None => file,
    }
}

/// The batch directory name this configuration asks for, given the
/// generated name and the timestamp.
pub open spec fn spec_batch_dir_for(c: Config, name: Seq<char>, stamp: Seq<char>) -> Seq<char> {
    spec_batch_dir_name(
        match c.output_path {
            Some(p) => Some(p@),
            None => None,
        },
        match c.tag {
            Some(t) => Some(t@),
            None => None,
        },
        name,
        stamp,
    )
}

/// Names the batch directory for this invocation: the configured
/// root and tag, woven with a freshly generated name and the current
/// local time to the minute.
pub fn batch_dir_name(config: &Config) -> (r: Result<String, Error>)
    ensures
        r matches Ok(s) ==> exists|name: Seq<char>, stamp: Seq<char>|
            s@ == #[trigger] spec_batch_dir_for(*config, name, stamp),
        r is Ok,
{
    match generated_name() {
        None => Err(Error::NameGenerationFailed),
        Some(name) => {
            let stamp = timestamp_minutes();
            let r = batch_dir_name_parts(
                &config.output_path,
                &config.tag,
                name.as_str(),
                stamp.as_str(),
            );
            proof {
                assert(r@ == spec_batch_dir_for(*config, name@, stamp@));
            }
            Ok(r)
        },
    }
}

/// The run directory's name: a timestamp nested under the batch
/// directory.
pub open spec fn spec_run_dir_name(batch_dir: Seq<char>, stamp: Seq<char>) -> Seq<char> {
    batch_dir + "/"@ + stamp
}

/// Names the run directory for one sample: a fine-grained timestamp
/// nested under the batch directory.
pub fn run_dir_name(batch_dir: &str) -> (r: String)
    ensures
        exists|stamp: Seq<char>| r@ == #[trigger] spec_run_dir_name(batch_dir@, stamp),
{
    let stamp = timestamp_fine();
    let mut r = String::from_str(batch_dir);
    r.append("/");
    r.append(stamp.as_str());
    proof {
        assert(r@ == spec_run_dir_name(batch_dir@, stamp@));
    }
    r
}

/// The archive that a finished batch directory is compressed into.
pub fn archive_name(batch_dir: &str) -> (r: String)
    ensures
        r@ == batch_dir@ + ".tgz"@,
{
    let mut r = String::from_str(batch_dir);
    r.append(".tgz");
    r
}

} // verus!
