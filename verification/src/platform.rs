//! Platform-specific facts: shared-library file suffixes per target OS, and
//! minimal terminal coloring for diagnostics.

use vstd::prelude::*;
use vstd::string::*;

verus! {

/// The target operating systems the loader can name shared libraries for.
/// Anything else is a startup-time configuration error: the shell refuses to
/// run there before ever calling into the loader.
#[derive(Clone, Copy, PartialEq, Eq, Structural, Debug)]
pub enum Os {
    MacOs,
    Linux,
    /// Any other target: no library suffix is defined for it.
    Unsupported,
}

/// The shared-library suffix for `os`, empty for an unsupported target.
pub open spec fn spec_lib_suffix(os: Os) -> Seq<char> {
    match os {
        Os::MacOs => "dylib"@,
        Os::Linux => "so"@,
        Os::Unsupported => Seq::<char>::empty(),
    }
}

/// The debug-info suffix for `os`, empty for an unsupported target.
pub open spec fn spec_dbg_suffix(os: Os) -> Seq<char> {
    match os {
        Os::MacOs => "dSYM"@,
        Os::Linux => "so.dwp"@,
        Os::Unsupported => Seq::<char>::empty(),
    }
}

/// File-name suffixes of the compiled artifacts on one platform: `lib` for
/// the shared library itself, `dbg` for its debug-info companion.
pub struct Extensions {
    pub lib: String,
    pub dbg: String,
}

impl Extensions {
    /// The suffixes for `os`; `None` exactly on an unsupported target.
    pub fn get(os: Os) -> (r: Option<Extensions>)
        ensures
            match r {
                Some(e) => os != Os::Unsupported && e.lib@ == spec_lib_suffix(os) && e.dbg@
                    == spec_dbg_suffix(os),
                None => os == Os::Unsupported,
            },
    {
        match os {
            Os::MacOs => Some(
                Extensions { lib: "dylib".to_owned(), dbg: "dSYM".to_owned() },
            ),
            Os::Linux => Some(Extensions { lib: "so".to_owned(), dbg: "so.dwp".to_owned() }),
            Os::Unsupported => None,
        }
    }
}

/// Whether colored output is wanted, given the four conventional environment
/// variables in priority order.  `NO_COLOR` set to anything non-empty turns
/// colors off; otherwise the first of `FORCE_COLOR`, `CLICOLOR` and
/// `CLICOLOR_FORCE` that is set decides, with `"0"` meaning off; with none
/// set, colors default to on.
pub open spec fn spec_colors_enabled(
    no_color: Option<Seq<char>>,
    force_color: Option<Seq<char>>,
    clicolor: Option<Seq<char>>,
    clicolor_force: Option<Seq<char>>,
) -> bool {
    if no_color is Some {
        no_color->0.len() == 0
    } else if force_color is Some {
        force_color->0 != "0"@
    } else if clicolor is Some {
        clicolor->0 != "0"@
    } else if clicolor_force is Some {
        clicolor_force->0 != "0"@
    } else {
        true
    }
}

/// Decides whether diagnostics should be colored.  Each argument is the value
/// of the like-named environment variable, read by the caller.
pub fn colors_enabled(
    no_color: Option<&String>,
    force_color: Option<&String>,
    clicolor: Option<&String>,
    clicolor_force: Option<&String>,
) -> (r: bool)
    ensures
        r == spec_colors_enabled(
            match no_color {
                Some(s) => Some(s@),
                None => None,
            },
            match force_color {
                Some(s) => Some(s@),
                None => None,
            },
            match clicolor {
                Some(s) => Some(s@),
                None => None,
            },
            match clicolor_force {
                Some(s) => Some(s@),
                None => None,
            },
        ),
{
    let zero: String = "0".to_owned();
    match no_color {
        Some(v) => v.as_str().is_empty(),
        None => match force_color {
            Some(v) => *v != zero,
            None => match clicolor {
                Some(v) => *v != zero,
                None => match clicolor_force {
                    Some(v) => *v != zero,
                    None => true,
                },
            },
        },
    }
}

/// The decimal digit character for `d`.
pub open spec fn spec_digit(d: int) -> char {
    if d == 0 {
        '0'
    } else if d == 1 {
        '1'
    } else if d == 2 {
        '2'
    } else if d == 3 {
        '3'
    } else if d == 4 {
        '4'
    } else if d == 5 {
        '5'
    } else if d == 6 {
        '6'
    } else if d == 7 {
        '7'
    } else if d == 8 {
        '8'
    } else {
        '9'
    }
}

/// The decimal rendering of `n` as a character sequence, most significant
/// digit first, with no leading zeroes.
pub open spec fn spec_decimal(n: int) -> Seq<char>
    decreases n,
{
    if n < 10 {
        seq![spec_digit(n)]
    } else {
        spec_decimal(n / 10).push(spec_digit(n % 10))
    }
}

fn digit_str(d: u8) -> (s: &'static str)
    requires
        d < 10,
    ensures
        s@ =~= seq![spec_digit(d as int)],
{
    proof {
        reveal_strlit("0");
        reveal_strlit("1");
        reveal_strlit("2");
        reveal_strlit("3");
        reveal_strlit("4");
        reveal_strlit("5");
        reveal_strlit("6");
        reveal_strlit("7");
        reveal_strlit("8");
        reveal_strlit("9");
    }
    match d {
        0 => "0",
        1 => "1",
        2 => "2",
        3 => "3",
        4 => "4",
        5 => "5",
        6 => "6",
        7 => "7",
        8 => "8",
        _ => "9",
    }
}

/// Renders `n` in decimal.
fn decimal(n: u8) -> (s: String)
    ensures
        s@ == spec_decimal(n as int),
    decreases n,
{
    if n < 10 {
        digit_str(n).to_owned()
    } else {
        let mut s = decimal(n / 10);
        s.append(digit_str(n % 10));
        proof {
            assert(spec_decimal(n as int) =~= spec_decimal(n as int / 10).push(
                spec_digit(n as int % 10),
            ));
            assert(spec_decimal(n as int / 10).push(spec_digit(n as int % 10))
                =~= spec_decimal(n as int / 10) + seq![spec_digit(n as int % 10)]);
        }
        s
    }
}

/// The text wrapped in the ANSI escape for `code` when `enabled`, the text
/// unchanged otherwise.
pub open spec fn spec_colorize(code: int, text: Seq<char>, enabled: bool) -> Seq<char> {
    if enabled {
        "\u{1b}["@ + spec_decimal(code) + "m"@ + text + "\u{1b}[0m"@
    } else {
        text
    }
}

/// Wraps `text` in the ANSI color escape for `color_code` when `enabled`.
pub fn colorize(color_code: u8, text: &str, enabled: bool) -> (r: String)
    ensures
        r@ == spec_colorize(color_code as int, text@, enabled),
{
    if enabled {
        let mut s: String = "\u{1b}[".to_owned();
        s.append(decimal(color_code).as_str());
        s.append("m");
        s.append(text);
        s.append("\u{1b}[0m");
        proof {
            assert(s@ =~= spec_colorize(color_code as int, text@, enabled));
        }
        s
    } else {
        text.to_owned()
    }
}

/// `text` in blue when `enabled`.
pub fn blue(text: &str, enabled: bool) -> (r: String)
    ensures
        r@ == spec_colorize(34, text@, enabled),
{
    colorize(34, text, enabled)
}

/// `text` in red when `enabled`.
pub fn red(text: &str, enabled: bool) -> (r: String)
    ensures
        r@ == spec_colorize(31, text@, enabled),
{
    colorize(31, text, enabled)
}

} // verus!
