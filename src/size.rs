use vstd::prelude::*;
use vstd::utf8::*;

verus! {

/// Target dimensions of a resize, in pixels.
#[derive(Debug, Clone, Copy, PartialEq, Eq, Structural)]
pub struct ResizeConfig {
    pub new_width: u32,
    pub new_height: u32,
}

/// Why a sizing request could not be resolved.
#[derive(Debug, PartialEq, Eq)]
pub enum ConfigError {
    /// The size hint is not one of the known tokens; carries the token.
    UnknownHint(String),
}

/// The side of the square that a size hint token names (tokens are case-sensitive),
/// or `None` for a token that is not in the table.
pub open spec fn hint_side(t: Seq<char>) -> Option<u32> {
    if t == "min"@ || t == "minimal"@ {
        Some(8)
    } else if t == "tiny"@ {
        Some(16)
    } else if t == "small"@ {
        Some(32)
    } else if t == "normal"@ {
        Some(64)
    } else if t == "large"@ {
        Some(128)
    } else if t == "Large"@ {
        Some(256)
    } else if t == "LARGE"@ {
        Some(512)
    } else if t == "huge"@ {
        Some(1024)
    } else if t == "Huge"@ {
        Some(2048)
    } else if t == "HUGE"@ {
        Some(4096)
    } else {
        None
    }
}

/// A square box of the given side.
pub open spec fn square(side: u32) -> ResizeConfig {
    ResizeConfig { new_width: side, new_height: side }
}

/// The target that a hint and two optional overrides resolve to: the hint's square,
/// with each axis replaced by its override where one is given.
pub open spec fn resolved(t: Seq<char>, width: Option<u32>, height: Option<u32>) -> Option<
    ResizeConfig,
> {
    match hint_side(t) {
        Some(side) => Some(
            ResizeConfig {
                new_width: match width {
                    Some(w) => w,
                    None => side,
                },
                new_height: match height {
                    Some(h) => h,
                    None => side,
                },
            },
        ),
        None => None,
    }
}

fn bytes_equal(a: &[u8], b: &[u8]) -> (r: bool)
    ensures
        r == (a@ == b@),
{
    if a.len() != b.len() {
        return false;
    }
    let mut i: usize = 0;
    while i < a.len()
        invariant
            a@.len() == b@.len(),
            0 <= i <= a@.len(),
            a@.subrange(0, i as int) == b@.subrange(0, i as int),
        decreases a@.len() - i,
    {
        if a[i] != b[i] {
            assert(a@[i as int] != b@[i as int]);
            return false;
        }
        assert(a@.subrange(0, i + 1) == a@.subrange(0, i as int).push(a@[i as int]));
        assert(b@.subrange(0, i + 1) == b@.subrange(0, i as int).push(b@[i as int]));
        i += 1;
    }
    assert(a@ == a@.subrange(0, a@.len() as int));
    assert(b@ == b@.subrange(0, b@.len() as int));
    true
}

/// Whether two strings hold the same characters, compared by their UTF-8 bytes.
fn same_text(a: &str, b: &str) -> (r: bool)
    ensures
        r == (a@ == b@),
{
    let r = bytes_equal(a.as_bytes(), b.as_bytes());
    proof {
        if r {
            encode_utf8_decode_utf8(a@);
            encode_utf8_decode_utf8(b@);
        }
    }
    r
}

impl ResizeConfig {
    pub fn new_square(wh: u32) -> (r: Self)
        ensures
            r == square(wh),
    {
        Self { new_width: wh, new_height: wh }
    }

    /// The square that a size hint names, or `None` for an unknown token.
    pub fn from_size_hint(size_hint: &str) -> (r: Option<Self>)
        ensures
            r == resolved(size_hint@, None, None),
    {
        let side: u32 = if same_text(size_hint, "min") || same_text(size_hint, "minimal") {
            8
        } else if same_text(size_hint, "tiny") {
            16
        } else if same_text(size_hint, "small") {
            32
        } else if same_text(size_hint, "normal") {
            64
        } else if same_text(size_hint, "large") {
            128
        } else if same_text(size_hint, "Large") {
            256
        } else if same_text(size_hint, "LARGE") {
            512
        } else if same_text(size_hint, "huge") {
            1024
        } else if same_text(size_hint, "Huge") {
            2048
        } else if same_text(size_hint, "HUGE") {
            4096
        } else {
            return None;
        };
        Some(Self::new_square(side))
    }
}

/// Resolves a size hint and optional per-axis overrides into target dimensions.
/// Any override value is accepted, zero included.
pub fn resolve(hint: &str, width: Option<u32>, height: Option<u32>) -> (r: Result<
    ResizeConfig,
    ConfigError,
>)
    ensures
        match r {
            Ok(c) => resolved(hint@, width, height) == Some(c),
            Err(ConfigError::UnknownHint(t)) => resolved(hint@, width, height) is None && t@
                == hint@,
        },
{
    match ResizeConfig::from_size_hint(hint) {
        Some(mut c) => {
            if let Some(w) = width {
                c.new_width = w;
            }
            if let Some(h) = height {
                c.new_height = h;
            }
            Ok(c)
        },
        None => Err(ConfigError::UnknownHint(hint.to_owned())),
    }
}

/// The hint table: each token resolves, with no override, to its fixed square.
pub proof fn hint_table()
    ensures
        resolved("min"@, None, None) == Some(square(8)),
        resolved("minimal"@, None, None) == Some(square(8)),
        resolved("tiny"@, None, None) == Some(square(16)),
        resolved("small"@, None, None) == Some(square(32)),
        resolved("normal"@, None, None) == Some(square(64)),
        resolved("large"@, None, None) == Some(square(128)),
        resolved("Large"@, None, None) == Some(square(256)),
        resolved("LARGE"@, None, None) == Some(square(512)),
        resolved("huge"@, None, None) == Some(square(1024)),
        resolved("Huge"@, None, None) == Some(square(2048)),
        resolved("HUGE"@, None, None) == Some(square(4096)),
{
    reveal_strlit("min");
    reveal_strlit("minimal");
    reveal_strlit("tiny");
    reveal_strlit("small");
    reveal_strlit("normal");
    reveal_strlit("large");
    reveal_strlit("Large");
    reveal_strlit("LARGE");
    reveal_strlit("huge");
    reveal_strlit("Huge");
    reveal_strlit("HUGE");
    assert("min"@.len() == 3 && "min"@[0] == 'm');
    assert("minimal"@.len() == 7 && "minimal"@[0] == 'm');
    assert("tiny"@.len() == 4 && "tiny"@[0] == 't');
    assert("small"@.len() == 5 && "small"@[0] == 's');
    assert("normal"@.len() == 6 && "normal"@[0] == 'n');
    assert("large"@.len() == 5 && "large"@[0] == 'l');
    assert("Large"@.len() == 5 && "Large"@[0] == 'L' && "Large"@[1] == 'a');
    assert("LARGE"@.len() == 5 && "LARGE"@[0] == 'L' && "LARGE"@[1] == 'A');
    assert("huge"@.len() == 4 && "huge"@[0] == 'h');
    assert("Huge"@.len() == 4 && "Huge"@[0] == 'H' && "Huge"@[1] == 'u');
    assert("HUGE"@.len() == 4 && "HUGE"@[0] == 'H' && "HUGE"@[1] == 'U');
}

/// A known hint with no override resolves to exactly its square.
pub proof fn no_override_gives_square(t: Seq<char>)
    requires
        hint_side(t) is Some,
    ensures
        resolved(t, None, None) == Some(square(hint_side(t)->0)),
{
}

/// Overriding one axis of a known hint leaves the other axis at the hint's square side.
pub proof fn single_override_keeps_other_axis(t: Seq<char>, v: u32)
    requires
        hint_side(t) is Some,
    ensures
        resolved(t, Some(v), None) == Some(
            ResizeConfig { new_width: v, new_height: hint_side(t)->0 },
        ),
        resolved(t, None, Some(v)) == Some(
            ResizeConfig { new_width: hint_side(t)->0, new_height: v },
        ),
{
}

/// A token outside the table never resolves, whatever the overrides.
pub proof fn unknown_hint_never_resolves(t: Seq<char>, width: Option<u32>, height: Option<u32>)
    requires
        t != "min"@,
        t != "minimal"@,
        t != "tiny"@,
        t != "small"@,
        t != "normal"@,
        t != "large"@,
        t != "Large"@,
        t != "LARGE"@,
        t != "huge"@,
        t != "Huge"@,
        t != "HUGE"@,
    ensures
        resolved(t, width, height) is None,
{
}

} // verus!
