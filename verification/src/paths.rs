use vstd::prelude::*;
use vstd::string::{StrSliceExecFns, StringExecFns};

verus! {

// Everything the tool persists lives under `<home>/Brief`: recordings,
// model binaries and notes. The home directory comes from the platform
// through a trusted wrapper; the path arithmetic is verified.

/// `base` with a separator and `name` appended.
pub open spec fn joined_path(base: Seq<char>, name: Seq<char>) -> Seq<char> {
    base + seq!['/'] + name
}

/// Relies on dirs::home_dir: the user's home directory, if the platform
/// reports one, rendered as text. Nothing is promised of its value; it
/// depends on the environment.
#[verifier::external_body]
fn home_dir_text() -> (r: Option<String>) {
    dirs::home_dir().map(|p| p.to_string_lossy().into_owned())
}

/// Append one path component.
fn push_component(out: &mut String, name: &str)
    ensures
        final(out)@ == joined_path(old(out)@, name@),
{
    proof {
        reveal_strlit("/");
        assert("/"@ =~= seq!['/']);
    }
    out.append("/");
    out.append(name);
    proof {
        assert(out@ =~= joined_path(old(out)@, name@));
    }
}

/// The tool's directory under a given home directory: `<home>/Brief`.
pub fn brief_dir_under(home: &str) -> (r: String)
    ensures
        r@ == joined_path(home@, "Brief"@),
{
    let mut out = home.to_owned();
    push_component(&mut out, "Brief");
    out
}

/// The notes directory: `<home>/Brief`; `None` when the platform reports
/// no home directory.
pub fn notes_dir() -> (r: Option<String>)
    ensures
        r matches Some(p) ==> exists|home: Seq<char>| p@ == #[trigger] joined_path(
            home,
            "Brief"@,
        ),
{
    match home_dir_text() {
        None => None,
        Some(h) => {
            let out = brief_dir_under(h.as_str());
            proof {
                assert(out@ == joined_path(h@, "Brief"@));
            }
            Some(out)
        },
    }
}

/// Where recordings are written: `<home>/Brief/recordings`; `None` when
/// the platform reports no home directory.
pub fn recordings_dir() -> (r: Option<String>)
    ensures
        r matches Some(p) ==> exists|home: Seq<char>| p@ == #[trigger] joined_path(
            joined_path(home, "Brief"@),
            "recordings"@,
        ),
{
    match home_dir_text() {
        None => None,
        Some(h) => {
            let mut out = brief_dir_under(h.as_str());
            push_component(&mut out, "recordings");
            proof {
                assert(out@ == joined_path(joined_path(h@, "Brief"@), "recordings"@));
            }
            Some(out)
        },
    }
}

/// Where model binaries live: `<home>/Brief/models`; `None` when the
/// platform reports no home directory.
pub fn models_dir() -> (r: Option<String>)
    ensures
        r matches Some(p) ==> exists|home: Seq<char>| p@ == #[trigger] joined_path(
            joined_path(home, "Brief"@),
            "models"@,
        ),
{
    match home_dir_text() {
        None => None,
        Some(h) => {
            let mut out = brief_dir_under(h.as_str());
            push_component(&mut out, "models");
            proof {
                assert(out@ == joined_path(joined_path(h@, "Brief"@), "models"@));
            }
            Some(out)
        },
    }
}

/// The expected location of the speech model binary:
/// `<home>/Brief/models/ggml-base.en.bin`.
pub fn model_path() -> (r: Option<String>)
    ensures
        r matches Some(p) ==> exists|home: Seq<char>| p@ == #[trigger] joined_path(
            joined_path(joined_path(home, "Brief"@), "models"@),
            "ggml-base.en.bin"@,
        ),
{
    match models_dir() {
        None => None,
        Some(d) => {
            let mut out = d;
            push_component(&mut out, "ggml-base.en.bin");
            Some(out)
        },
    }
}

} // verus!
