//! Window titles read from the bytes of X11 text properties.

use vstd::prelude::*;
use vstd::utf8::*;

verus! {

/// The text that `String::from_utf8_lossy` makes of `bytes`: each maximal
/// invalid sequence is replaced by U+FFFD.
pub uninterp spec fn utf8_lossy_text(bytes: Seq<u8>) -> Seq<char>;

/// Calls `String::from_utf8`. Claimed, as std documents it: it succeeds
/// exactly on valid UTF-8, and then yields the characters that the bytes
/// encode.
#[verifier::external_body]
fn decode_utf8_strict(bytes: &[u8]) -> (r: Option<String>)
    ensures
        r is Some <==> valid_utf8(bytes@),
        r matches Some(s) ==> s@ == decode_utf8(bytes@),
{
    String::from_utf8(bytes.to_vec()).ok()
}

/// Calls `String::from_utf8_lossy`. Claimed: the result is the text named
/// `utf8_lossy_text` for these bytes, and, as std documents, on valid UTF-8
/// it is exactly the decoded text. What replaces invalid sequences is left
/// to the name.
#[verifier::external_body]
fn decode_utf8_lossy(bytes: &[u8]) -> (r: String)
    ensures
        r@ == utf8_lossy_text(bytes@),
        valid_utf8(bytes@) ==> r@ == decode_utf8(bytes@),
{
    String::from_utf8_lossy(bytes).into_owned()
}

/// The title shown before any window could be asked for its name.
pub open spec fn uninitialized_title() -> Seq<char> {
    "<uninitialized window>"@
}

/// The title of a window whose `WM_NAME` property held `bytes`: the bytes read
/// as UTF-8, with invalid sequences replaced.
pub fn title_from_bytes(bytes: &[u8]) -> (title: String)
    ensures
        title@ == utf8_lossy_text(bytes@),
        valid_utf8(bytes@) ==> title@ == decode_utf8(bytes@),
{
    decode_utf8_lossy(bytes)
}

/// The title of the focused window when the tracker starts: the `WM_NAME`
/// property read as UTF-8 when the server answered, else the placeholder
/// `<uninitialized window>`.
pub fn focused_title(property: Option<&[u8]>) -> (title: String)
    ensures
        title@ == match property {
            Some(bytes) => utf8_lossy_text(bytes@),
            None => uninitialized_title(),
        },
        property matches Some(bytes) ==> (valid_utf8(bytes@) ==> title@ == decode_utf8(bytes@)),
{
    match property {
        Some(bytes) => decode_utf8_lossy(bytes),
        None => "<uninitialized window>".to_owned(),
    }
}

/// What became of the `_NET_WM_NAME` property of a newly focused window.
pub enum NetNameOutcome {
    /// The property held UTF-8 text: this is the title.
    Title(String),
    /// The property held no valid UTF-8; the legacy `WM_NAME` property has to
    /// be read. `announce` is true the first time this happens, when the
    /// switch to `WM_NAME` is to be reported.
    Fallback { announce: bool },
}

/// The title chosen from a legacy `WM_NAME` property.
pub struct LegacyName {
    pub title: String,
    /// The bytes were not valid UTF-8, and invalid sequences were replaced.
    pub replaced: bool,
}

/// Follows how the titles of focused windows are read: from `_NET_WM_NAME`
/// first, from `WM_NAME` when that fails, and reports the switch once.
pub struct TitleReader {
    legacy_announced: bool,
}

impl TitleReader {
    /// Whether the switch to `WM_NAME` has been reported.
    pub closed spec fn announced(&self) -> bool {
        self.legacy_announced
    }

    /// A reader that has not reported the switch yet.
    pub fn new() -> (r: TitleReader)
        ensures
            !r.announced(),
    {
        TitleReader { legacy_announced: false }
    }

    /// Reads the `_NET_WM_NAME` property of the focused window.
    pub fn net_name(&mut self, bytes: &[u8]) -> (r: NetNameOutcome)
        ensures
            match r {
                NetNameOutcome::Title(t) => valid_utf8(bytes@) && t@ == decode_utf8(bytes@)
                    && final(self).announced() == old(self).announced(),
                NetNameOutcome::Fallback { announce } => !valid_utf8(bytes@)
                    && announce == !old(self).announced()
                    && final(self).announced(),
            },
    {
        match decode_utf8_strict(bytes) {
            Some(title) => NetNameOutcome::Title(title),
            None => {
                let announce = !self.legacy_announced;
                self.legacy_announced = true;
                NetNameOutcome::Fallback { announce }
            },
        }
    }

    /// Reads the legacy `WM_NAME` property: as UTF-8 when it is valid, else
    /// with invalid sequences replaced.
    pub fn legacy_name(bytes: &[u8]) -> (r: LegacyName)
        ensures
            r.replaced == !valid_utf8(bytes@),
            valid_utf8(bytes@) ==> r.title@ == decode_utf8(bytes@),
            !valid_utf8(bytes@) ==> r.title@ == utf8_lossy_text(bytes@),
    {
        match decode_utf8_strict(bytes) {
            Some(title) => LegacyName { title, replaced: false },
            None => LegacyName { title: decode_utf8_lossy(bytes), replaced: true },
        }
    }
}

/// A title is passed on to the tracker only when it is not empty.
pub fn is_reportable(title: &String) -> (r: bool)
    ensures
        r == (title@.len() > 0),
{
    !title.as_str().is_empty()
}

/// The placeholder title is the text `<uninitialized window>`.
pub proof fn law_placeholder_title()
    ensures
        uninitialized_title() == "<uninitialized window>"@,
{
}

} // verus!
