//! The fixed set of target formats a conversion may ask for.
use vstd::prelude::*;

verus! {

/// What `str::trim` returns for a text.
pub uninterp spec fn trimmed(s: Seq<char>) -> Seq<char>;

/// What `str::to_lowercase` returns for a text.
pub uninterp spec fn lowered(s: Seq<char>) -> Seq<char>;

/// Relies on `str::trim`: leading and trailing whitespace removed, the
/// result depending on the text alone.
#[verifier::external_body]
fn trim_text(s: &str) -> (r: &str)
    ensures
        r@ == trimmed(s@),
{
    s.trim()
}

/// Relies on `str::to_lowercase`: the lowercase mapping of each character,
/// the result depending on the text alone.
#[verifier::external_body]
fn lowercase(s: &str) -> (r: String)
    ensures
        r@ == lowered(s@),
{
    s.to_lowercase()
}

/// A target format of the transcoder.
#[derive(Clone, Copy, Debug, PartialEq, Eq, Structural)]
pub enum Format {
    Wav,
    Mp3,
    M4a,
    Ogg,
    Flac,
    Aac,
}

/// The text of a `format` field, trimmed and then lower-cased.
pub open spec fn normalized_field(text: Seq<char>) -> Seq<char> {
    lowered(trimmed(text))
}

impl Format {
    /// The format's name: also the extension of its output file.
    pub open spec fn name_spec(self) -> Seq<char> {
        match self {
            Format::Wav => "wav"@,
            Format::Mp3 => "mp3"@,
            Format::M4a => "m4a"@,
            Format::Ogg => "ogg"@,
            Format::Flac => "flac"@,
            Format::Aac => "aac"@,
        }
    }

    /// The format whose name is exactly `s`, if any.
    pub open spec fn parse_spec(s: Seq<char>) -> Option<Format> {
        if s == Format::Wav.name_spec() {
            Some(Format::Wav)
        } else if s == Format::Mp3.name_spec() {
            Some(Format::Mp3)
        } else if s == Format::M4a.name_spec() {
            Some(Format::M4a)
        } else if s == Format::Ogg.name_spec() {
            Some(Format::Ogg)
        } else if s == Format::Flac.name_spec() {
            Some(Format::Flac)
        } else if s == Format::Aac.name_spec() {
            Some(Format::Aac)
        } else {
            None
        }
    }

    /// The format a request gets when it names none.
    pub open spec fn default_spec() -> Format {
        Format::Wav
    }

    pub fn default_target() -> (r: Format)
        ensures
            r == Format::default_spec(),
    {
        Format::Wav
    }

    pub fn name(&self) -> (r: &'static str)
        ensures
            r@ == self.name_spec(),
    {
        match self {
            Format::Wav => "wav",
            Format::Mp3 => "mp3",
            Format::M4a => "m4a",
            Format::Ogg => "ogg",
            Format::Flac => "flac",
            Format::Aac => "aac",
        }
    }

    fn is_named(&self, s: &str) -> (r: bool)
        ensures
            r == (s@ == self.name_spec()),
    {
        let given = String::from_str(s);
        let own = String::from_str(self.name());
        given == own
    }

    /// The format named exactly by `s` (already trimmed and lower-cased).
    pub fn from_name(s: &str) -> (r: Option<Format>)
        ensures
            r == Format::parse_spec(s@),
    {
        if Format::Wav.is_named(s) {
            Some(Format::Wav)
        } else if Format::Mp3.is_named(s) {
            Some(Format::Mp3)
        } else if Format::M4a.is_named(s) {
            Some(Format::M4a)
        } else if Format::Ogg.is_named(s) {
            Some(Format::Ogg)
        } else if Format::Flac.is_named(s) {
            Some(Format::Flac)
        } else if Format::Aac.is_named(s) {
            Some(Format::Aac)
        } else {
            None
        }
    }

    /// The format named by the text of a `format` field: the text is
    /// trimmed and lower-cased before it is looked up.
    pub fn from_field_text(text: &str) -> (r: Option<Format>)
        ensures
            r == Format::parse_spec(normalized_field(text@)),
    {
        let t = trim_text(text);
        let lower = lowercase(t);
        Format::from_name(lower.as_str())
    }
}

/// Every format is found again under its own name, and a name that is found
/// is exactly the found format's name.
pub proof fn name_round_trip(f: Format, s: Seq<char>)
    ensures
        Format::parse_spec(f.name_spec()) == Some(f),
        Format::parse_spec(s) matches Some(g) ==> g.name_spec() == s,
{
    reveal_strlit("wav");
    reveal_strlit("mp3");
    reveal_strlit("m4a");
    reveal_strlit("ogg");
    reveal_strlit("flac");
    reveal_strlit("aac");
    let w = "wav"@;
    let m = "mp3"@;
    let a = "m4a"@;
    let o = "ogg"@;
    let fl = "flac"@;
    let c = "aac"@;
    assert(w[0] != m[0] && w[0] != a[0] && w[0] != o[0] && w[0] != fl[0] && w[0] != c[0]);
    assert(m[1] != a[1] && m[0] != o[0] && m.len() != fl.len() && m[0] != c[0]);
    assert(a[0] != o[0] && a.len() != fl.len() && a[0] != c[0]);
    assert(o.len() != fl.len() && o[0] != c[0]);
    assert(fl.len() != c.len());
}

} // verus!
