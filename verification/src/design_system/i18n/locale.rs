//! Interface languages read from BCP-47 tags, defaulting to English.
use crate::design_system::theme::{is_text, normalize, normalized};
use crate::text::{char_from_u32, push_char};
use vstd::prelude::*;

verus! {

/// The interface languages; their text form is a BCP-47 locale tag.
#[derive(Debug, Clone, Copy, PartialEq, Eq, Structural)]
pub enum Locale {
    ZhCn,
    EnUs,
}

/// The language a BCP-47 tag names: any English tag is English; Chinese with no
/// subtag or with `hans`, `cn`, `sg` or `my` is Simplified Chinese; anything else
/// is the default (English). The tag is trimmed and lower-cased (ASCII) first.
pub open spec fn spec_parse_tag(value: Seq<char>) -> Locale {
    let n = normalized(value);
    let language = subtag(n, 0);
    let region = subtag(n, 1);
    if language == Some("en"@) {
        Locale::EnUs
    } else if language == Some("zh"@) && (region is None || region == Some("hans"@) || region == Some(
        "cn"@,
    ) || region == Some("sg"@) || region == Some("my"@)) {
        Locale::ZhCn
    } else {
        Locale::EnUs
    }
}

/// The `k`-th `-`-separated part of `s`, as `str::split('-')` yields it.
pub open spec fn subtag(s: Seq<char>, k: int) -> Option<Seq<char>> {
    let parts = dash_split(s);
    if 0 <= k < parts.len() {
        Some(parts[k])
    } else {
        None
    }
}

/// `s` split at every `-`.
pub open spec fn dash_split(s: Seq<char>) -> Seq<Seq<char>>
    decreases s.len(),
{
    if s.len() == 0 {
        seq![Seq::<char>::empty()]
    } else if s.last() == '-' {
        dash_split(s.drop_last()).push(Seq::<char>::empty())
    } else {
        let r = dash_split(s.drop_last());
        r.update(r.len() - 1, r.last().push(s.last()))
    }
}

proof fn lemma_dash_split_nonempty(s: Seq<char>)
    ensures
        dash_split(s).len() >= 1,
    decreases s.len(),
{
    if s.len() > 0 {
        lemma_dash_split_nonempty(s.drop_last());
    }
}

/// The first two `-`-separated parts of `s`.
fn first_two_parts(s: &[char]) -> (r: (Vec<char>, Option<Vec<char>>))
    ensures
        Some(r.0@) == subtag(s@, 0),
        (match r.1 {
            Some(v) => Some(v@),
            None => None,
        }) == subtag(s@, 1),
{
    let mut first: Vec<char> = Vec::new();
    let mut second: Vec<char> = Vec::new();
    let mut parts: usize = 1;
    let mut i: usize = 0;
    assert(s@.subrange(0, 0) =~= Seq::<char>::empty());
    while i < s.len()
        invariant
            i <= s@.len(),
            1 <= parts <= 3,
            parts == (if dash_split(s@.subrange(0, i as int)).len() < 3 {
                dash_split(s@.subrange(0, i as int)).len()
            } else {
                3
            }),
            first@ == dash_split(s@.subrange(0, i as int))[0],
            parts == 1 ==> second@.len() == 0,
            parts >= 2 ==> second@ == dash_split(s@.subrange(0, i as int))[1],
        decreases s.len() - i,
    {
        let c = s[i];
        let ghost before = s@.subrange(0, i as int);
        assert(s@.subrange(0, i + 1).drop_last() =~= before);
        assert(s@.subrange(0, i + 1).last() == c);
        proof {
            lemma_dash_split_nonempty(before);
        }
        if c == '-' {
            if parts < 3 {
                parts = parts + 1;
            }
        } else if parts == 1 {
            first.push(c);
        } else if parts == 2 {
            second.push(c);
        }
        i = i + 1;
    }
    assert(s@.subrange(0, s@.len() as int) =~= s@);
    (first, if parts >= 2 {
        Some(second)
    } else {
        None
    })
}

impl Locale {
    /// Unconfigured or unsupported languages use English.
    pub const DEFAULT: Locale = Locale::EnUs;

    /// The locale tag of the language.
    pub fn as_str(self) -> (r: &'static str)
        ensures
            self == Locale::ZhCn ==> r@ == "zh-CN"@,
            self == Locale::EnUs ==> r@ == "en-US"@,
    {
        match self {
            Locale::ZhCn => "zh-CN",
            Locale::EnUs => "en-US",
        }
    }
}

impl Locale {
    /// Reads a BCP-47 tag: any English tag is English; Chinese with no subtag
    /// or with `hans`, `cn`, `sg` or `my` is Simplified Chinese; anything else is
    /// the default (English).
    pub fn parse(value: &str) -> (r: Self)
        ensures
            r == spec_parse_tag(value@),
    {
        let n = normalize(value);
        let (language, region) = first_two_parts(n.as_slice());
        if is_text(language.as_slice(), "en") {
            return Locale::EnUs;
        }
        let chinese_region = match &region {
            None => true,
            Some(r) => is_text(r.as_slice(), "hans") || is_text(r.as_slice(), "cn") || is_text(
                r.as_slice(),
                "sg",
            ) || is_text(r.as_slice(), "my"),
        };
        if is_text(language.as_slice(), "zh") && chinese_region {
            Locale::ZhCn
        } else {
            Locale::EnUs
        }
    }
}

/// UTF-16 decoded with unpaired surrogates replaced by U+FFFD: a leading
/// surrogate followed by a trailing one is one character; any other surrogate is
/// U+FFFD (the unit after an unpaired leading surrogate is read on its own);
/// every other unit is the character of that code.
pub open spec fn utf16_text(units: Seq<u16>) -> Seq<char>
    decreases units.len(),
{
    if units.len() == 0 {
        Seq::empty()
    } else if 0xD800 <= units[0] <= 0xDBFF && units.len() >= 2 && 0xDC00 <= units[1] <= 0xDFFF {
        seq![((0x10000 + (units[0] - 0xD800) * 0x400 + (units[1] - 0xDC00)) as u32) as char] + utf16_text(
            units.subrange(2, units.len() as int),
        )
    } else if 0xD800 <= units[0] <= 0xDFFF {
        seq!['\u{FFFD}'] + utf16_text(units.drop_first())
    } else {
        seq![(units[0] as u32) as char] + utf16_text(units.drop_first())
    }
}

/// Decodes UTF-16 as `String::from_utf16_lossy` does: a leading surrogate
/// followed by a trailing one is one character, any other surrogate is U+FFFD.
fn decode_utf16_lossy(units: &[u16]) -> (r: String)
    ensures
        r@ == utf16_text(units@),
{
    let n = units.len();
    let mut out = String::new();
    let mut i: usize = 0;
    assert(units@.subrange(0, n as int) =~= units@);
    while i < n
        invariant
            i <= n,
            n == units@.len(),
            out@ + utf16_text(units@.subrange(i as int, n as int)) == utf16_text(units@),
        decreases n - i,
    {
        let ghost rest = units@.subrange(i as int, n as int);
        let u = units[i];
        assert(rest[0] == u);
        if 0xD800 <= u && u <= 0xDBFF && i + 1 < n && 0xDC00 <= units[i + 1] && units[i + 1] <= 0xDFFF {
            let low = units[i + 1];
            assert(rest[1] == low);
            let high_bits: u32 = (u as u32 - 0xD800) * 0x400;
            assert((u as u32 - 0xD800) * 0x400 <= 0x3FF * 0x400) by (nonlinear_arith)
                requires
                    u as u32 - 0xD800 <= 0x3FF,
            ;
            let point: u32 = 0x10000 + high_bits + (low as u32 - 0xDC00);
            let c = char_from_u32(point);
            proof {
                assert(rest.subrange(2, rest.len() as int) =~= units@.subrange(i + 2, n as int));
                assert(utf16_text(rest) == seq![c] + utf16_text(rest.subrange(2, rest.len() as int)));
            }
            let ghost before = out@;
            push_char(&mut out, c);
            assert(before.push(c) + utf16_text(units@.subrange(i + 2, n as int)) =~= before + (seq![c]
                + utf16_text(units@.subrange(i + 2, n as int))));
            i = i + 2;
        } else if 0xD800 <= u && u <= 0xDFFF {
            proof {
                assert(rest.drop_first() =~= units@.subrange(i + 1, n as int));
            }
            let ghost before = out@;
            push_char(&mut out, '\u{FFFD}');
            assert(before.push('\u{FFFD}') + utf16_text(units@.subrange(i + 1, n as int)) =~= before + (seq![
                '\u{FFFD}',
            ] + utf16_text(units@.subrange(i + 1, n as int))));
            i = i + 1;
        } else {
            let c = char_from_u32(u as u32);
            proof {
                assert(rest.drop_first() =~= units@.subrange(i + 1, n as int));
            }
            let ghost before = out@;
            push_char(&mut out, c);
            assert(before.push(c) + utf16_text(units@.subrange(i + 1, n as int)) =~= before + (seq![c]
                + utf16_text(units@.subrange(i + 1, n as int))));
            i = i + 1;
        }
    }
    assert(units@.subrange(n as int, n as int) =~= Seq::<u16>::empty());
    out
}

/// The code units of `s` up to its first NUL.
pub open spec fn until_nul(s: Seq<u16>) -> Seq<u16>
    decreases s.len(),
{
    if s.len() == 0 || s[0] == 0 {
        Seq::empty()
    } else {
        seq![s[0]] + until_nul(s.drop_first())
    }
}

/// The first non-empty entry of a NUL-separated list of code units.
pub open spec fn first_entry(s: Seq<u16>) -> Option<Seq<u16>>
    decreases s.len(),
{
    if s.len() == 0 {
        None
    } else if s[0] == 0 {
        first_entry(s.drop_first())
    } else {
        Some(until_nul(s))
    }
}

/// The language of a NUL-separated list of preferred UI language tags, as
/// Windows returns it in UTF-16: the first tag read as a locale, or the default
/// when the list holds none.
pub open spec fn spec_preferred_locale(buffer: Seq<u16>) -> Locale {
    match first_entry(buffer) {
        Some(tag) => spec_parse_tag(utf16_text(tag)),
        None => Locale::DEFAULT,
    }
}

impl Locale {
    /// The language the user prefers, from the NUL-separated list of preferred
    /// UI language tags that Windows returns in UTF-16: its first tag, read as a
    /// locale; the default when the list holds none.
    pub fn from_preferred_ui_languages(buffer: &[u16]) -> (r: Self)
        ensures
            r == spec_preferred_locale(buffer@),
    {
        let n = buffer.len();
        let mut i: usize = 0;
        assert(buffer@.subrange(0, n as int) =~= buffer@);
        while i < n && buffer[i] == 0
            invariant
                i <= n,
                n == buffer@.len(),
                first_entry(buffer@.subrange(i as int, n as int)) == first_entry(buffer@),
            decreases n - i,
        {
            assert(buffer@.subrange(i as int, n as int).drop_first() =~= buffer@.subrange(i + 1, n as int));
            i = i + 1;
        }
        if i == n {
            return Locale::DEFAULT;
        }
        let start = i;
        let mut tag: Vec<u16> = Vec::new();
        while i < n && buffer[i] != 0
            invariant
                start <= i <= n,
                n == buffer@.len(),
                tag@ + until_nul(buffer@.subrange(i as int, n as int)) == until_nul(
                    buffer@.subrange(start as int, n as int),
                ),
            decreases n - i,
        {
            let ghost rest = buffer@.subrange(i as int, n as int);
            assert(rest.drop_first() =~= buffer@.subrange(i + 1, n as int));
            assert(tag@.push(buffer[i as int]) + until_nul(rest.drop_first()) =~= tag@ + until_nul(rest));
            tag.push(buffer[i]);
            i = i + 1;
        }
        proof {
            let rest = buffer@.subrange(i as int, n as int);
            assert(until_nul(rest) =~= Seq::<u16>::empty());
            assert(tag@ =~= until_nul(buffer@.subrange(start as int, n as int)));
        }
        let text = decode_utf16_lossy(tag.as_slice());
        Locale::parse(text.as_str())
    }
}

/// The locale tag of a language.
pub open spec fn tag_text(l: Locale) -> Seq<char> {
    match l {
        Locale::ZhCn => "zh-CN"@,
        Locale::EnUs => "en-US"@,
    }
}

/// A part without dashes is not split.
proof fn lemma_dash_free(s: Seq<char>)
    requires
        forall|i: int| 0 <= i < s.len() ==> #[trigger] s[i] != '-',
    ensures
        dash_split(s) =~~= seq![s],
    decreases s.len(),
{
    if s.len() > 0 {
        lemma_dash_free(s.drop_last());
        assert(s.drop_last().push(s.last()) =~= s);
    }
}

/// A dash followed by a part without dashes adds that part.
proof fn lemma_dash_then(a: Seq<char>, b: Seq<char>)
    requires
        forall|i: int| 0 <= i < b.len() ==> #[trigger] b[i] != '-',
    ensures
        dash_split(a + seq!['-'] + b) =~~= dash_split(a).push(b),
    decreases b.len(),
{
    if b.len() == 0 {
        assert((a + seq!['-'] + b).drop_last() =~= a);
        assert(a + seq!['-'] + b =~= a.push('-'));
    } else {
        lemma_dash_then(a, b.drop_last());
        assert((a + seq!['-'] + b).drop_last() =~= a + seq!['-'] + b.drop_last());
        assert((a + seq!['-'] + b).last() == b.last());
        assert(b.drop_last().push(b.last()) =~= b);
    }
}

/// Reading back the locale tag of a language gives the language.
pub proof fn law_tag_round_trip(l: Locale)
    ensures
        spec_parse_tag(tag_text(l)) == l,
{
    reveal_strlit("zh-CN");
    reveal_strlit("en-US");
    reveal_strlit("en");
    reveal_strlit("zh");
    reveal_strlit("cn");
    let t = tag_text(l);
    crate::design_system::theme::lemma_normalized_word(t);
    let n = normalized(t);
    match l {
        Locale::ZhCn => {
            assert(n =~= seq!['z', 'h'] + seq!['-'] + seq!['c', 'n']);
            lemma_dash_free(seq!['z', 'h']);
            lemma_dash_then(seq!['z', 'h'], seq!['c', 'n']);
            assert(subtag(n, 0) == Some(seq!['z', 'h']));
            assert(subtag(n, 1) == Some(seq!['c', 'n']));
            assert("zh"@ =~= seq!['z', 'h']);
            assert("cn"@ =~= seq!['c', 'n']);
            assert("en"@ != seq!['z', 'h']) by {
                assert("en"@[0] != seq!['z', 'h'][0]);
            }
        },
        Locale::EnUs => {
            assert(n =~= seq!['e', 'n'] + seq!['-'] + seq!['u', 's']);
            lemma_dash_free(seq!['e', 'n']);
            lemma_dash_then(seq!['e', 'n'], seq!['u', 's']);
            assert(subtag(n, 0) == Some(seq!['e', 'n']));
            assert("en"@ =~= seq!['e', 'n']);
        },
    }
}

/// A language's tag is read back as that language whatever whitespace surrounds
/// it and whether it is written in upper or lower case.
pub proof fn law_padded_tag_in_any_case(l: Locale, left: Seq<char>, right: Seq<char>)
    requires
        crate::text::all_ws(left),
        crate::text::all_ws(right),
    ensures
        spec_parse_tag(left + tag_text(l) + right) == l,
        spec_parse_tag(left + crate::text::ascii_upper_seq(tag_text(l)) + right) == l,
{
    reveal_strlit("zh-CN");
    reveal_strlit("en-US");
    let t = tag_text(l);
    assert(t.len() > 0);
    crate::design_system::theme::lemma_normalized_padded_word(left, t, right);
    crate::design_system::theme::lemma_normalized_word(t);
    law_tag_round_trip(l);
}

} // verus!
