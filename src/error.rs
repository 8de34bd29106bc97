//! Failures of a resolution.
use vstd::prelude::*;
use vstd::string::StringExecFns;

verus! {

/// What went wrong; every kind ends the resolution under way.
#[derive(Clone, Copy, Debug, PartialEq, Eq, Structural)]
pub enum ErrorKind {
    /// The architecture has no release asset; found before any I/O.
    UnsupportedPlatform,
    /// The release feed could not be queried.
    FeedQuery,
    /// The release holds no asset of the expected name.
    AssetNotFound,
    /// Creating, reading or listing on disk failed.
    FileSystem,
    /// The asset could not be downloaded.
    Download,
    /// The archive could not be unpacked.
    Extraction,
    /// An event arrived that does not answer the pending action.
    OutOfOrder,
}

/// A failed resolution: its kind and a message for the user.
#[derive(Clone, Debug)]
pub struct ResolveError {
    pub kind: ErrorKind,
    pub message: String,
}

impl View for ResolveError {
    type V = (ErrorKind, Seq<char>);

    open spec fn view(&self) -> (ErrorKind, Seq<char>) {
        (self.kind, self.message@)
    }
}

/// `prefix` followed by `detail`.
pub fn prefixed(prefix: &str, detail: &str) -> (r: String)
    ensures
        r@ == prefix@ + detail@,
{
    let mut s = String::from_str(prefix);
    s.append(detail);
    s
}

/// An error of `kind` whose message is `prefix` followed by `detail`.
pub fn error_with(kind: ErrorKind, prefix: &str, detail: &str) -> (r: ResolveError)
    ensures
        r@ == (kind, prefix@ + detail@),
{
    ResolveError { kind, message: prefixed(prefix, detail) }
}

/// `"a", "b", ...`: each name in double quotes, separated by a comma and a space.
pub open spec fn quoted_list(names: Seq<Seq<char>>) -> Seq<char>
    decreases names.len(),
{
    if names.len() == 0 {
        Seq::empty()
    } else if names.len() == 1 {
        "\""@ + names[0] + "\""@
    } else {
        quoted_list(names.drop_last()) + ", \""@ + names.last() + "\""@
    }
}

/// The message of a missing asset: the name looked for and those offered.
pub open spec fn asset_not_found_message(expected: Seq<char>, offered: Seq<Seq<char>>) -> Seq<char> {
    "no asset found matching \""@ + expected + "\", available assets: ["@ + quoted_list(offered)
        + "]"@
}

/// The error for a release without the expected asset.
pub fn asset_not_found(expected: &String, offered: &Vec<String>) -> (r: ResolveError)
    ensures
        r@ == (ErrorKind::AssetNotFound, asset_not_found_message(
            expected@,
            offered@.map_values(|n: String| n@),
        )),
{
    let ghost names = offered@.map_values(|n: String| n@);
    let mut list = String::new();
    let mut i: usize = 0;
    while i < offered.len()
        invariant
            i <= offered.len(),
            names == offered@.map_values(|n: String| n@),
            list@ == quoted_list(names.take(i as int)),
        decreases offered.len() - i,
    {
        if i == 0 {
            list.append("\"");
        } else {
            list.append(", \"");
        }
        list.append(offered[i].as_str());
        list.append("\"");
        proof {
            assert(names.take(i + 1).drop_last() =~= names.take(i as int));
            if i == 0 {
                assert(quoted_list(names.take(0)) =~= Seq::<char>::empty());
            }
        }
        i = i + 1;
    }
    assert(names.take(offered.len() as int) =~= names);
    let mut message = String::from_str("no asset found matching \"");
    message.append(expected.as_str());
    message.append("\", available assets: [");
    message.append(list.as_str());
    message.append("]");
    ResolveError { kind: ErrorKind::AssetNotFound, message }
}

} // verus!
