use vstd::prelude::*;
use crate::signer::{prefixed_hex, KeyPair};

verus! {

/// The path `name` resolved against `dir`, as `std::path::Path::join` forms
/// it on Unix: `name` itself where it is absolute, else `name` appended to
/// `dir` with a `/` between them unless `dir` is empty or already ends in one.
pub open spec fn joined(dir: Seq<char>, name: Seq<char>) -> Seq<char> {
    if name.len() > 0 && name[0] == '/' {
        name
    } else if dir.len() == 0 || dir.last() == '/' {
        dir + name
    } else {
        dir + seq!['/'] + name
    }
}

/// Relies on `std::path::Path::join` (and a lossless conversion back to text,
/// since both parts are UTF-8).
#[verifier::external_body]
fn join_path(dir: &str, name: &str) -> (r: String)
    ensures
        r@ == joined(dir@, name@),
{
    std::path::Path::new(dir).join(name).to_string_lossy().into_owned()
}

/// Where a password comes from.
#[derive(Debug)]
pub enum PasswordStep {
    /// Use this password as given.
    Use(String),
    /// Ask the user, with a second entry to confirm where `confirm` holds.
    Prompt { confirm: bool },
}

/// A wallet named in a base directory, with the password if it was given.
pub struct Keystore {
    /// The name of the wallet, which is also its file name.
    pub name: String,
    /// The password, where it was given up front.
    pub password: Option<String>,
    /// The directory that holds the wallet file.
    pub path: String,
}

impl Keystore {
    /// Where the password comes from: the one given, or else a prompt, which
    /// asks for confirmation where `confirm` holds (when creating a wallet).
    pub fn password(&self, confirm: bool) -> (r: PasswordStep)
        ensures
            match self.password {
                Some(p) => r == PasswordStep::Use(p),
                None => r == PasswordStep::Prompt { confirm },
            },
    {
        match &self.password {
            Some(p) => PasswordStep::Use(p.clone()),
            None => PasswordStep::Prompt { confirm },
        }
    }

    /// The name of the file that a new keystore is written to before it is
    /// moved to its place: the wallet's name, hidden, with `.partial` added.
    pub fn temp_name(&self) -> (r: String)
        ensures
            r@ == temp_name_spec(self.name@),
    {
        let mut r = String::from_str(".");
        r.append(self.name.as_str());
        r.append(".partial");
        proof {
            reveal_strlit(".");
            reveal_strlit(".partial");
        }
        r
    }

    /// The path of the temporary file, beside the wallet file.
    pub fn temp_path(&self) -> (r: String)
        ensures
            r@ == joined(self.path@, temp_name_spec(self.name@)),
    {
        let t = self.temp_name();
        join_path(self.path.as_str(), t.as_str())
    }

    /// The file of this wallet: its name joined to its directory.
    pub fn file_path(&self) -> (r: String)
        ensures
            r@ == joined(self.path@, self.name@),
    {
        join_path(self.path.as_str(), self.name.as_str())
    }
}

/// `.` + `name` + `.partial`.
pub open spec fn temp_name_spec(name: Seq<char>) -> Seq<char> {
    seq!['.'] + name + seq!['.', 'p', 'a', 'r', 't', 'i', 'a', 'l']
}

/// The bytes of `fish`.
pub open spec fn fish() -> Seq<u8> {
    seq![102u8, 105u8, 115u8, 104u8]
}

/// Whether `fish` occurs in `s`.
pub open spec fn names_fish(s: Seq<u8>) -> bool {
    exists|i: int| 0 <= i && i + 4 <= s.len() && #[trigger] s.subrange(i, i + 4) == fish()
}

/// The line that sets `PRIVATE_KEY` to `value` in the shell named by `shell`:
/// the `set` form for fish, the `NAME=value` form for the others.
pub open spec fn export_line_spec(shell: Seq<u8>, value: Seq<u8>) -> Seq<u8> {
    if names_fish(shell) {
        seq![115u8, 101u8, 116u8, 32u8] + private_key_var() + seq![32u8] + value
    } else {
        private_key_var() + seq![61u8] + value
    }
}

/// The bytes of `PRIVATE_KEY`.
pub open spec fn private_key_var() -> Seq<u8> {
    seq![80u8, 82u8, 73u8, 86u8, 65u8, 84u8, 69u8, 95u8, 75u8, 69u8, 89u8]
}

fn contains_fish(s: &[u8]) -> (r: bool)
    ensures
        r == names_fish(s@),
{
    if s.len() < 4 {
        return false;
    }
    let mut i: usize = 0;
    while i <= s.len() - 4
        invariant
            s@.len() >= 4,
            i <= s@.len() - 3,
            forall|k: int| 0 <= k < i ==> #[trigger] s@.subrange(k, k + 4) != fish(),
        decreases s@.len() - i,
    {
        if s[i] == 102 && s[i + 1] == 105 && s[i + 2] == 115 && s[i + 3] == 104 {
            assert(s@.subrange(i as int, i + 4) =~= fish());
            return true;
        }
        assert(s@.subrange(i as int, i + 4)[0] == s@[i as int]);
        assert(s@.subrange(i as int, i + 4)[1] == s@[i + 1]);
        assert(s@.subrange(i as int, i + 4)[2] == s@[i + 2]);
        assert(s@.subrange(i as int, i + 4)[3] == s@[i + 3]);
        i = i + 1;
    }
    false
}

fn push_all(out: &mut Vec<u8>, s: &[u8])
    ensures
        final(out)@ == old(out)@ + s@,
{
    let mut i: usize = 0;
    while i < s.len()
        invariant
            i <= s@.len(),
            out@ == old(out)@ + s@.subrange(0, i as int),
        decreases s@.len() - i,
    {
        out.push(s[i]);
        assert(s@.subrange(0, i + 1) =~= s@.subrange(0, i as int).push(s@[i as int]));
        i = i + 1;
    }
    assert(s@.subrange(0, s@.len() as int) =~= s@);
}

/// The shell line that exports the private key of `pair` as `PRIVATE_KEY`,
/// in the syntax of the shell named by `shell` (the value of `SHELL`).
pub fn export_line(shell: &[u8], pair: &KeyPair) -> (r: Vec<u8>)
    ensures
        r@ == export_line_spec(shell@, prefixed_hex(pair.secret_spec())),
{
    let value = pair.secret_text();
    let var: Vec<u8> = vec![80u8, 82u8, 73u8, 86u8, 65u8, 84u8, 69u8, 95u8, 75u8, 69u8, 89u8];
    assert(var@ =~= private_key_var());
    let mut r: Vec<u8> = Vec::new();
    if contains_fish(shell) {
        let set: Vec<u8> = vec![115u8, 101u8, 116u8, 32u8];
        push_all(&mut r, set.as_slice());
        push_all(&mut r, var.as_slice());
        r.push(32u8);
        push_all(&mut r, value.as_slice());
        assert(r@ =~= export_line_spec(shell@, value@));
    } else {
        push_all(&mut r, var.as_slice());
        r.push(61u8);
        push_all(&mut r, value.as_slice());
        assert(r@ =~= export_line_spec(shell@, value@));
    }
    r
}

} // verus!
