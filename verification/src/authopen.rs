//! What the privileged-open helper is asked for. Spawning the helper and
//! passing file descriptors is the embedding program's work; the access
//! mode, its command-line flags, the octal rendering of a creation mode,
//! and the authorization right's name are computed here.

use vstd::prelude::*;
use vstd::string::{StrSliceExecFns, StringExecFns};

verus! {

/// How the helper is asked to open a path.
#[derive(Clone, Copy, Debug, PartialEq, Eq, Structural)]
pub enum OpenOption {
    Read,
    ReadWrite,
    ReadWriteAppend,
    ReadWriteCreate(u32),
}

/// The octal digit for a value below eight.
pub open spec fn octal_digit_char(n: u32) -> char {
    "01234567"@[n as int]
}

/// The octal rendering of a number, most significant digit first, no
/// leading zeros (a lone zero renders as "0").
pub open spec fn octal_of(n: u32) -> Seq<char>
    decreases n,
{
    if n < 8 {
        seq![octal_digit_char(n)]
    } else {
        octal_of(n / 8) + seq![octal_digit_char(n % 8)]
    }
}

fn octal_digit(n: u32) -> (s: &'static str)
    requires
        n < 8,
    ensures
        s@ == seq![octal_digit_char(n)],
{
    let table = "01234567";
    proof {
        reveal_strlit("01234567");
        assert(table.is_ascii());
    }
    let s = table.substring_ascii(n as usize, n as usize + 1);
    proof {
        assert(s@ =~= seq![octal_digit_char(n)]);
    }
    s
}

/// Renders a number in octal, as the helper's `-m` flag expects a
/// creation mode.
pub fn octal_string(n: u32) -> (r: String)
    ensures
        r@ == octal_of(n),
    decreases n,
{
    if n < 8 {
        octal_digit(n).to_owned()
    } else {
        let mut s = octal_string(n / 8);
        s.append(octal_digit(n % 8));
        s
    }
}

/// The command-line flags the helper takes for each access mode: `-w` for
/// write access, `-a` to append, `-c` with an octal `-m` mode to create.
pub open spec fn spec_flags(o: OpenOption) -> Seq<Seq<char>> {
    match o {
        OpenOption::Read => Seq::<Seq<char>>::empty(),
        OpenOption::ReadWrite => seq!["-w"@],
        OpenOption::ReadWriteAppend => seq!["-w"@, "-a"@],
        OpenOption::ReadWriteCreate(m) => seq!["-w"@, "-c"@, "-m"@, octal_of(m)],
    }
}

/// The name of the authorization right each access mode asks for.
pub open spec fn spec_mode_name(o: OpenOption) -> Seq<char> {
    match o {
        OpenOption::Read => "readonly"@,
        OpenOption::ReadWrite => "readwrite"@,
        OpenOption::ReadWriteAppend => "readwrite"@,
        OpenOption::ReadWriteCreate(_) => "readwritecreate"@,
    }
}

impl OpenOption {
    /// The helper's command-line flags for this mode.
    pub fn flags(&self) -> (r: Vec<String>)
        ensures
            r.deep_view() == spec_flags(*self),
    {
        let mut flags: Vec<String> = Vec::new();
        match self {
            OpenOption::Read => {},
            OpenOption::ReadWrite => {
                flags.push("-w".to_owned());
            },
            OpenOption::ReadWriteAppend => {
                flags.push("-w".to_owned());
                flags.push("-a".to_owned());
            },
            OpenOption::ReadWriteCreate(mode) => {
                flags.push("-w".to_owned());
                flags.push("-c".to_owned());
                flags.push("-m".to_owned());
                flags.push(octal_string(*mode));
            },
        }
        proof {
            assert(flags.deep_view() =~~= spec_flags(*self));
        }
        flags
    }

    /// The access-mode component of the authorization right's name.
    pub fn mode_name(&self) -> (r: &'static str)
        ensures
            r@ == spec_mode_name(*self),
    {
        match self {
            OpenOption::Read => "readonly",
            OpenOption::ReadWrite => "readwrite",
            OpenOption::ReadWriteAppend => "readwrite",
            OpenOption::ReadWriteCreate(_) => "readwritecreate",
        }
    }

    /// The full authorization right asked of the helper for a path:
    /// `sys.openfile.<mode>.<path>`.
    pub fn authopen_right(&self, path: &str) -> (r: String)
        ensures
            r@ == "sys.openfile."@ + spec_mode_name(*self) + "."@ + path@,
    {
        let mut s = "sys.openfile.".to_owned();
        s.append(self.mode_name());
        s.append(".");
        s.append(path);
        s
    }
}

} // verus!
