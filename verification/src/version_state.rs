use vstd::prelude::*;
use vstd::string::*;
use crate::errors::{ErrorKind, UpdateError};

verus! {

/// The sentinel tag meaning "never installed": absence of prior state is a
/// normal first-run condition, not an error.
pub open spec fn spec_default_tag() -> Seq<char> {
    "v0.0.0"@
}

/// What `save` persists for tag `t`: the marker file holds exactly the tag
/// text, no trailing structure.
pub open spec fn spec_marker_contents(tag: Seq<char>) -> Seq<char> {
    tag
}

/// What `load` makes of the marker file. `None` contents means the file is
/// absent, which yields the sentinel tag. Empty contents are corruption
/// (a tag is never empty), modelled as `None`: a fatal load failure.
pub open spec fn spec_load(contents: Option<Seq<char>>) -> Option<Seq<char>> {
    match contents {
        Option::None => Option::Some(spec_default_tag()),
        Option::Some(s) => if s.len() > 0 {
            Option::Some(s)
        } else {
            Option::None
        },
    }
}

/// The sentinel tag as a value.
pub fn default_tag() -> (r: String)
    ensures
        r@ == spec_default_tag(),
{
    "v0.0.0".to_owned()
}

/// Interpret what was read from the marker file (`None` = file absent) as
/// the currently installed tag.
pub fn load_tag(contents: Option<String>) -> (r: Result<String, UpdateError>)
    ensures
        r matches Ok(t) ==> spec_load(contents.deep_view()) == Some(t@),
        r matches Err(e) ==> spec_load(contents.deep_view()) is None && e.kind == ErrorKind::Io,
{
    match contents {
        Option::None => Ok(default_tag()),
        Option::Some(s) => {
            if s.as_str().unicode_len() == 0 {
                Err(UpdateError::new(ErrorKind::Io, "version marker file is empty".to_owned()))
            } else {
                Ok(s)
            }
        },
    }
}

/// The exact text that `save` persists for `tag`.
pub fn marker_contents(tag: &String) -> (r: String)
    ensures
        r@ == spec_marker_contents(tag@),
{
    tag.clone()
}

/// Round trip: persisting a tag and then loading the marker back yields
/// exactly that tag.
pub proof fn lemma_marker_round_trip(tag: Seq<char>)
    requires
        tag.len() > 0,
    ensures
        spec_load(Some(spec_marker_contents(tag))) == Some(tag),
{
}

} // verus!
