use vstd::prelude::*;

verus! {

/// A stored short link: a key that redirects to a URL, with a click counter.
pub struct ShortLink {
    pub id: i32,
    pub short_key: String,
    pub url: String,
    pub token: String,
    pub clicks: i32,
}

/// A stored landing page: raw page bytes served under a path.
pub struct LandingPage {
    pub id: i32,
    pub path: String,
    pub html: Vec<u8>,
}

/// Whether an existence probe found the key: an absent answer counts as
/// "does not exist".
pub fn key_exists(probe: Option<bool>) -> (r: bool)
    ensures
        r == (probe == Some(true)),
{
    match probe {
        Some(b) => b,
        None => false,
    }
}

/// The click counter after one more click; a counter at its ceiling cannot be
/// advanced and the attempt is an operation failure.
pub fn recorded_click(clicks: i32) -> (r: Option<i32>)
    ensures
        clicks < i32::MAX ==> r == Some((clicks + 1) as i32),
        clicks == i32::MAX ==> r is None,
{
    if clicks < i32::MAX {
        Some(clicks + 1)
    } else {
        None
    }
}

} // verus!
