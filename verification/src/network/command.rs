use vstd::prelude::*;
use vstd::utf8::{decode_utf8, encode_utf8, is_ascii_chars, valid_utf8};

use crate::encode::cursor::Cursor;
use crate::encode::encode::{field, holds_at, Decodable, Encodable};
use crate::encode::error::Error;
use crate::utils::text::{
    spec_ascii_lower_char, spec_to_lowercase, str_chars, str_to_lowercase, string_from_utf8,
    string_push,
};

verus! {

/// The kinds of message this library knows.
#[derive(PartialEq, Eq, Structural, Debug, Clone, Copy)]
pub enum Command {
    Version,
    VerAck,
    GetHeaders,
    GetAddr,
    Alert,
    Addr,
    Ping,
    Pong,
    Inv,
}

/// The name of a command on the wire.
pub open spec fn spec_command_name(c: Command) -> Seq<char> {
    match c {
        Command::Version => seq!['v', 'e', 'r', 's', 'i', 'o', 'n'],
        Command::GetHeaders => seq!['g', 'e', 't', 'h', 'e', 'a', 'd', 'e', 'r', 's'],
        Command::GetAddr => seq!['g', 'e', 't', 'a', 'd', 'd', 'r'],
        Command::VerAck => seq!['v', 'e', 'r', 'a', 'c', 'k'],
        Command::Alert => seq!['a', 'l', 'e', 'r', 't'],
        Command::Addr => seq!['a', 'd', 'd', 'r'],
        Command::Ping => seq!['p', 'i', 'n', 'g'],
        Command::Pong => seq!['p', 'o', 'n', 'g'],
        Command::Inv => seq!['i', 'n', 'v'],
    }
}

/// The command whose name is `s`, if any.
pub open spec fn spec_command_from_name(s: Seq<char>) -> Option<Command> {
    if s == spec_command_name(Command::Version) {
        Some(Command::Version)
    } else if s == spec_command_name(Command::GetHeaders) {
        Some(Command::GetHeaders)
    } else if s == spec_command_name(Command::GetAddr) {
        Some(Command::GetAddr)
    } else if s == spec_command_name(Command::VerAck) {
        Some(Command::VerAck)
    } else if s == spec_command_name(Command::Alert) {
        Some(Command::Alert)
    } else if s == spec_command_name(Command::Addr) {
        Some(Command::Addr)
    } else if s == spec_command_name(Command::Ping) {
        Some(Command::Ping)
    } else if s == spec_command_name(Command::Pong) {
        Some(Command::Pong)
    } else if s == spec_command_name(Command::Inv) {
        Some(Command::Inv)
    } else {
        None
    }
}

impl Command {
    /// The command named `s`; any other text is refused.
    pub fn from_str(s: &str) -> (r: Result<Command, ()>)
        ensures
            match spec_command_from_name(s@) {
                Some(c) => r == Ok::<Command, ()>(c),
                None => r == Err::<Command, ()>(()),
            },
    {
        let owned = s.to_owned();
        proof {
            reveal_strlit("version");
            assert("version"@ =~= spec_command_name(Command::Version));
            reveal_strlit("getheaders");
            assert("getheaders"@ =~= spec_command_name(Command::GetHeaders));
            reveal_strlit("getaddr");
            assert("getaddr"@ =~= spec_command_name(Command::GetAddr));
            reveal_strlit("verack");
            assert("verack"@ =~= spec_command_name(Command::VerAck));
            reveal_strlit("alert");
            assert("alert"@ =~= spec_command_name(Command::Alert));
            reveal_strlit("addr");
            assert("addr"@ =~= spec_command_name(Command::Addr));
            reveal_strlit("ping");
            assert("ping"@ =~= spec_command_name(Command::Ping));
            reveal_strlit("pong");
            assert("pong"@ =~= spec_command_name(Command::Pong));
            reveal_strlit("inv");
            assert("inv"@ =~= spec_command_name(Command::Inv));
        }
        if owned == "version".to_owned() {
            Ok(Command::Version)
        } else if owned == "getheaders".to_owned() {
            Ok(Command::GetHeaders)
        } else if owned == "getaddr".to_owned() {
            Ok(Command::GetAddr)
        } else if owned == "verack".to_owned() {
            Ok(Command::VerAck)
        } else if owned == "alert".to_owned() {
            Ok(Command::Alert)
        } else if owned == "addr".to_owned() {
            Ok(Command::Addr)
        } else if owned == "ping".to_owned() {
            Ok(Command::Ping)
        } else if owned == "pong".to_owned() {
            Ok(Command::Pong)
        } else if owned == "inv".to_owned() {
            Ok(Command::Inv)
        } else {
            Err(())
        }
    }

    /// The command's name.
    pub fn to_string(&self) -> (s: String)
        ensures
            s@ == spec_command_name(*self),
    {
        proof {
            reveal_strlit("version");
            reveal_strlit("getheaders");
            reveal_strlit("getaddr");
            reveal_strlit("verack");
            reveal_strlit("alert");
            reveal_strlit("addr");
            reveal_strlit("ping");
            reveal_strlit("pong");
            reveal_strlit("inv");
        }
        let name = match self {
            Command::Version => "version",
            Command::GetHeaders => "getheaders",
            Command::GetAddr => "getaddr",
            Command::VerAck => "verack",
            Command::Alert => "alert",
            Command::Addr => "addr",
            Command::Ping => "ping",
            Command::Pong => "pong",
            Command::Inv => "inv",
        };
        name.to_owned()
    }
}

/// The name of a command as it travels in a message header.
#[derive(PartialEq, Eq, Debug)]
pub struct CommandString(pub String);

impl DeepView for CommandString {
    type V = Seq<char>;

    open spec fn deep_view(&self) -> Seq<char> {
        self.0@
    }
}

impl CommandString {
    /// The command this name stands for, if it names one.
    pub fn to_command(&self) -> (r: Result<Command, ()>)
        ensures
            match spec_command_from_name(self.0@) {
                Some(c) => r == Ok::<Command, ()>(c),
                None => r == Err::<Command, ()>(()),
            },
    {
        Command::from_str(self.0.as_str())
    }
}

/// The number of bytes a command name occupies in a message header.
pub const COMMAND_LEN: usize = 12;

/// `b` with an ASCII capital turned into its lowercase letter.
pub open spec fn spec_ascii_lowercase(b: u8) -> u8 {
    if 0x41 <= b && b <= 0x5A {
        (b + 0x20) as u8
    } else {
        b
    }
}

/// The name `s` followed by twelve NULs, which the header field is cut from.
pub open spec fn spec_command_padded(s: Seq<char>) -> Seq<char> {
    s + Seq::new(COMMAND_LEN as nat, |i: int| '\0')
}

/// The header field that carries the name `s`: the UTF-8 bytes of
/// `s` padded with twelve NULs and lowercased, cut to twelve bytes. For an
/// ASCII name that is its bytes with capitals lowercased, then zero bytes.
pub open spec fn spec_command_field(s: Seq<char>) -> Seq<u8> {
    if is_ascii_chars(s) {
        let b = encode_utf8(s);
        Seq::new(
            COMMAND_LEN as nat,
            |i: int|
                if i < b.len() {
                    spec_ascii_lowercase(b[i])
                } else {
                    0u8
                },
        )
    } else {
        let b = encode_utf8(spec_to_lowercase(spec_command_padded(s)));
        if b.len() <= COMMAND_LEN {
            b
        } else {
            b.take(COMMAND_LEN as int)
        }
    }
}

/// `s` without its NUL characters.
pub open spec fn spec_strip_nul(s: Seq<char>) -> Seq<char>
    decreases s.len(),
{
    if s.len() == 0 {
        s
    } else if s.last() == '\0' {
        spec_strip_nul(s.drop_last())
    } else {
        spec_strip_nul(s.drop_last()).push(s.last())
    }
}

impl Encodable for CommandString {
    open spec fn spec_encode(s: Seq<char>) -> Seq<u8> {
        spec_command_field(s)
    }

    fn encode(&self, w: &mut Vec<u8>) -> (r: Result<(), Error>) {
        broadcast use vstd::utf8::is_ascii_chars_encode_utf8;

        let ghost start = w@;
        let ghost name = self.0@;
        let chars = str_chars(self.0.as_str());
        let mut padded = String::new();
        let mut i: usize = 0;
        while i < chars.len()
            invariant
                chars@ == name,
                i <= chars@.len(),
                padded@ == chars@.take(i as int),
            decreases chars.len() - i,
        {
            string_push(&mut padded, chars[i]);
            i = i + 1;
            assert(padded@ =~= chars@.take(i as int));
        }
        let mut k: usize = 0;
        while k < COMMAND_LEN
            invariant
                chars@ == name,
                k <= COMMAND_LEN,
                padded@ == name + Seq::new(k as nat, |j: int| '\0'),
            decreases COMMAND_LEN - k,
        {
            string_push(&mut padded, '\0');
            k = k + 1;
            assert(padded@ =~= name + Seq::new(k as nat, |j: int| '\0'));
        }
        assert(padded@ =~= spec_command_padded(name)) by {
            assert(chars@.take(chars@.len() as int) =~= chars@);
        }
        let lower = str_to_lowercase(padded.as_str());
        let bytes = lower.as_str().as_bytes();
        let n = if bytes.len() < COMMAND_LEN {
            bytes.len()
        } else {
            COMMAND_LEN
        };
        let mut j: usize = 0;
        while j < n
            invariant
                n <= bytes@.len(),
                n <= COMMAND_LEN,
                j <= n,
                w@ == start + bytes@.take(j as int),
            decreases n - j,
        {
            w.push(bytes[j]);
            j = j + 1;
            assert(w@ =~= start + bytes@.take(j as int));
        }
        proof {
            let field = spec_command_field(name);
            let lowered = encode_utf8(spec_to_lowercase(spec_command_padded(name)));
            assert(bytes@ == lowered);
            if is_ascii_chars(name) {
                let p = spec_command_padded(name);
                assert(is_ascii_chars(p));
                let l = p.map_values(|c: char| spec_ascii_lower_char(c));
                assert(lower@ == l);
                assert forall|x: int| 0 <= x < l.len() implies '\0' <= #[trigger] l[x] <= '\u{7f}' by {
                    let c = p[x] as u32;
                    assert(c < 128);
                    assert(0x41 <= c <= 0x5A ==> c + 0x20 < 128);
                }
                assert(is_ascii_chars(l));
                assert(n == COMMAND_LEN);
                let b = encode_utf8(name);
                assert forall|x: int| 0 <= x < COMMAND_LEN implies #[trigger] bytes@[x] == field[x] by {
                    assert(bytes@[x] == l[x] as u8);
                    let c = p[x] as u32;
                    assert(c < 128);
                    if x < name.len() {
                        assert(p[x] == name[x]);
                        assert(b[x] == name[x] as u8);
                        assert(c < 128 ==> (0x41 <= c <= 0x5A ==> ((c + 0x20) as u8) == (((c as u8) + 0x20) as u8))
                            && (c as u8) as u32 == c) by (bit_vector);
                    } else {
                        assert(p[x] == '\0');
                    }
                }
                assert(w@ =~= start + field);
            } else {
                if lowered.len() <= COMMAND_LEN {
                    assert(bytes@.take(n as int) =~= lowered);
                } else {
                    assert(n == COMMAND_LEN);
                }
                assert(w@ =~= start + field);
            }
        }
        Ok(())
    }
}

/// After the first NUL byte of `b`, if any, every byte is NUL.
pub open spec fn spec_nul_padded(b: Seq<u8>) -> bool {
    forall|i: int, j: int| 0 <= i < j < b.len() && #[trigger] b[i] == 0 ==> #[trigger] b[j] == 0
}

/// `b` holds a NUL byte.
pub open spec fn spec_has_nul(b: Seq<u8>) -> bool {
    exists|k: int| 0 <= k < b.len() && #[trigger] b[k] == 0
}

/// One more byte keeps `b` NUL-padded exactly when it is NUL or no NUL came
/// before it.
proof fn lemma_nul_padded_push(b: Seq<u8>, x: u8)
    ensures
        spec_nul_padded(b.push(x)) == (spec_nul_padded(b) && (spec_has_nul(b) ==> x == 0)),
        spec_has_nul(b.push(x)) == (spec_has_nul(b) || x == 0),
{
    let c = b.push(x);
    assert forall|k: int| 0 <= k < b.len() implies #[trigger] c[k] == b[k] by {}
    assert(c[b.len() as int] == x);
    if spec_nul_padded(c) {
        assert forall|i: int, j: int| 0 <= i < j < b.len() && #[trigger] b[i] == 0 implies #[trigger] b[j] == 0 by {
            assert(c[i] == b[i] && c[j] == b[j]);
        }
        if spec_has_nul(b) {
            let k = choose|k: int| 0 <= k < b.len() && #[trigger] b[k] == 0;
            assert(c[k] == 0);
            assert(c[b.len() as int] == 0);
        }
    }
    if spec_nul_padded(b) && (spec_has_nul(b) ==> x == 0) {
        assert forall|i: int, j: int| 0 <= i < j < c.len() && #[trigger] c[i] == 0 implies #[trigger] c[j] == 0 by {
            if j < b.len() {
                assert(b[i] == 0 && b[j] == c[j]);
            } else {
                assert(b[i] == 0);
                assert(spec_has_nul(b));
            }
        }
    }
    if spec_has_nul(c) && !spec_has_nul(b) {
        let k = choose|k: int| 0 <= k < c.len() && #[trigger] c[k] == 0;
        if k < b.len() {
            assert(b[k] == 0);
        }
    }
    if spec_has_nul(b) {
        let k = choose|k: int| 0 <= k < b.len() && #[trigger] b[k] == 0;
        assert(c[k] == 0);
    }
    if x == 0 {
        assert(c[b.len() as int] == 0);
    }
}

impl Decodable for CommandString {
    /// Twelve bytes (`Command` when missing) that must be UTF-8
    /// (`CommandDecode` otherwise) and NUL-padded: after the first NUL, only
    /// NULs (`CommandPadding` otherwise). The name is their text without the
    /// padding.
    open spec fn spec_decode(data: Seq<u8>, pos: int) -> (Result<Seq<char>, Error>, int) {
        match field(data, pos, COMMAND_LEN as int) {
            None => (Err(Error::Command), pos),
            Some(b) => if !valid_utf8(b) {
                (Err(Error::CommandDecode), pos + COMMAND_LEN)
            } else if !spec_nul_padded(b) {
                (Err(Error::CommandPadding), pos + COMMAND_LEN)
            } else {
                (Ok(spec_strip_nul(decode_utf8(b))), pos + COMMAND_LEN)
            },
        }
    }

    fn decode(r: &mut Cursor) -> (res: Result<CommandString, Error>) {
        let ghost expected = <CommandString as Decodable>::spec_decode(r.data(), r.pos());
        let buffer = match <[u8; 12]>::decode(r) {
            Ok(b) => b,
            Err(_) => return Err(Error::Command),
        };
        let mut bytes: Vec<u8> = Vec::new();
        let mut padded = true;
        let mut seen_nul = false;
        let mut i: usize = 0;
        while i < COMMAND_LEN
            invariant
                i <= COMMAND_LEN,
                bytes@ == buffer@.take(i as int),
                padded == spec_nul_padded(bytes@),
                seen_nul == spec_has_nul(bytes@),
            decreases COMMAND_LEN - i,
        {
            let b = buffer[i];
            proof {
                lemma_nul_padded_push(bytes@, b);
            }
            if seen_nul && b != 0 {
                padded = false;
            }
            if b == 0 {
                seen_nul = true;
            }
            bytes.push(b);
            i = i + 1;
            assert(bytes@ =~= buffer@.take(i as int));
        }
        assert(buffer@.take(COMMAND_LEN as int) =~= buffer.deep_view());
        let text = match string_from_utf8(bytes) {
            Some(t) => t,
            None => return Err(Error::CommandDecode),
        };
        if !padded {
            return Err(Error::CommandPadding);
        }
        let chars = str_chars(text.as_str());
        let mut s = String::new();
        let mut j: usize = 0;
        while j < chars.len()
            invariant
                j <= chars@.len(),
                s@ == spec_strip_nul(chars@.take(j as int)),
            decreases chars.len() - j,
        {
            let c = chars[j];
            if c != '\0' {
                string_push(&mut s, c);
            }
            proof {
                assert(chars@.take(j + 1).drop_last() =~= chars@.take(j as int));
            }
            j = j + 1;
        }
        assert(chars@.take(chars@.len() as int) =~= chars@);
        Ok(CommandString(s))
    }
}

/// `s` is made of lowercase ASCII letters.
pub open spec fn spec_is_lower_word(s: Seq<char>) -> bool {
    forall|i: int| 0 <= i < s.len() ==> 'a' <= #[trigger] s[i] <= 'z'
}

/// `s` followed by NULs loses them all to [`spec_strip_nul`], when it has
/// none of its own.
proof fn lemma_strip_nul_padding(s: Seq<char>, n: nat)
    requires
        forall|i: int| 0 <= i < s.len() ==> #[trigger] s[i] != '\0',
    ensures
        spec_strip_nul(s + Seq::new(n, |i: int| '\0')) == s,
    decreases s.len() + n,
{
    let padded = s + Seq::new(n, |i: int| '\0');
    if n > 0 {
        assert(padded.drop_last() =~= s + Seq::new((n - 1) as nat, |i: int| '\0'));
        lemma_strip_nul_padding(s, (n - 1) as nat);
    } else if s.len() > 0 {
        assert(padded =~= s);
        assert(s.drop_last() + Seq::new(0, |i: int| '\0') =~= s.drop_last());
        lemma_strip_nul_padding(s.drop_last(), 0);
        assert(s.drop_last().push(s.last()) =~= s);
    } else {
        assert(padded =~= s);
    }
}

/// Every command's name is a lowercase word of at most twelve letters that
/// names that command and no other.
pub proof fn lemma_command_name(c: Command)
    ensures
        spec_is_lower_word(spec_command_name(c)),
        spec_command_name(c).len() <= COMMAND_LEN,
        spec_command_from_name(spec_command_name(c)) == Some(c),
{
    assert(spec_command_name(Command::Version).len() == 7);
    assert(spec_command_name(Command::Version)[0] == 'v' && spec_command_name(Command::Version)[1] == 'e');
    assert(spec_command_name(Command::GetHeaders).len() == 10);
    assert(spec_command_name(Command::GetHeaders)[0] == 'g' && spec_command_name(Command::GetHeaders)[1] == 'e');
    assert(spec_command_name(Command::GetAddr).len() == 7);
    assert(spec_command_name(Command::GetAddr)[0] == 'g' && spec_command_name(Command::GetAddr)[1] == 'e');
    assert(spec_command_name(Command::VerAck).len() == 6);
    assert(spec_command_name(Command::VerAck)[0] == 'v' && spec_command_name(Command::VerAck)[1] == 'e');
    assert(spec_command_name(Command::Alert).len() == 5);
    assert(spec_command_name(Command::Alert)[0] == 'a' && spec_command_name(Command::Alert)[1] == 'l');
    assert(spec_command_name(Command::Addr).len() == 4);
    assert(spec_command_name(Command::Addr)[0] == 'a' && spec_command_name(Command::Addr)[1] == 'd');
    assert(spec_command_name(Command::Ping).len() == 4);
    assert(spec_command_name(Command::Ping)[0] == 'p' && spec_command_name(Command::Ping)[1] == 'i');
    assert(spec_command_name(Command::Pong).len() == 4);
    assert(spec_command_name(Command::Pong)[0] == 'p' && spec_command_name(Command::Pong)[1] == 'o');
    assert(spec_command_name(Command::Inv).len() == 3);
    assert(spec_command_name(Command::Inv)[0] == 'i' && spec_command_name(Command::Inv)[1] == 'n');
    match c {
        Command::Version => {
            assert forall|i: int| 0 <= i < 7 implies 'a' <= #[trigger] spec_command_name(c)[i] <= 'z' by {
                assert(i == 0 || i == 1 || i == 2 || i == 3 || i == 4 || i == 5 || i == 6);
            }
        },
        Command::GetHeaders => {
            assert forall|i: int| 0 <= i < 10 implies 'a' <= #[trigger] spec_command_name(c)[i] <= 'z' by {
                assert(i == 0 || i == 1 || i == 2 || i == 3 || i == 4 || i == 5 || i == 6 || i == 7 || i == 8 || i == 9);
            }
        },
        Command::GetAddr => {
            assert forall|i: int| 0 <= i < 7 implies 'a' <= #[trigger] spec_command_name(c)[i] <= 'z' by {
                assert(i == 0 || i == 1 || i == 2 || i == 3 || i == 4 || i == 5 || i == 6);
            }
        },
        Command::VerAck => {
            assert forall|i: int| 0 <= i < 6 implies 'a' <= #[trigger] spec_command_name(c)[i] <= 'z' by {
                assert(i == 0 || i == 1 || i == 2 || i == 3 || i == 4 || i == 5);
            }
        },
        Command::Alert => {
            assert forall|i: int| 0 <= i < 5 implies 'a' <= #[trigger] spec_command_name(c)[i] <= 'z' by {
                assert(i == 0 || i == 1 || i == 2 || i == 3 || i == 4);
            }
        },
        Command::Addr => {
            assert forall|i: int| 0 <= i < 4 implies 'a' <= #[trigger] spec_command_name(c)[i] <= 'z' by {
                assert(i == 0 || i == 1 || i == 2 || i == 3);
            }
        },
        Command::Ping => {
            assert forall|i: int| 0 <= i < 4 implies 'a' <= #[trigger] spec_command_name(c)[i] <= 'z' by {
                assert(i == 0 || i == 1 || i == 2 || i == 3);
            }
        },
        Command::Pong => {
            assert forall|i: int| 0 <= i < 4 implies 'a' <= #[trigger] spec_command_name(c)[i] <= 'z' by {
                assert(i == 0 || i == 1 || i == 2 || i == 3);
            }
        },
        Command::Inv => {
            assert forall|i: int| 0 <= i < 3 implies 'a' <= #[trigger] spec_command_name(c)[i] <= 'z' by {
                assert(i == 0 || i == 1 || i == 2);
            }
        },
    }
}

/// The header field of a command's name reads back as that name.
pub proof fn lemma_command_field_reads_back(c: Command, data: Seq<u8>, pos: int)
    requires
        holds_at(data, pos, spec_command_field(spec_command_name(c))),
    ensures
        CommandString::spec_decode(data, pos) == (
            Ok::<Seq<char>, Error>(spec_command_name(c)),
            pos + COMMAND_LEN,
        ),
{
    broadcast use vstd::utf8::is_ascii_chars_encode_utf8;

    let name = spec_command_name(c);
    lemma_command_name(c);
    let n = (COMMAND_LEN - name.len()) as nat;
    let padded = name + Seq::new(n, |i: int| '\0');
    assert(vstd::utf8::is_ascii_chars(name));
    assert(vstd::utf8::is_ascii_chars(padded));
    let field_bytes = spec_command_field(name);
    let b = encode_utf8(name);
    assert forall|i: int| 0 <= i < COMMAND_LEN implies #[trigger] field_bytes[i] == encode_utf8(
        padded,
    )[i] by {
        if i < name.len() {
            let x = name[i] as u32;
            assert(0x61 <= x <= 0x7A);
            assert(0x61 <= x <= 0x7A ==> (x as u8) as u32 == x) by (bit_vector);
            assert(b[i] == name[i] as u8);
            assert(padded[i] == name[i]);
        } else {
            assert(padded[i] == '\0');
        }
    }
    assert(field_bytes =~= encode_utf8(padded));
    vstd::utf8::encode_utf8_valid_utf8(padded);
    vstd::utf8::encode_utf8_decode_utf8(padded);
    assert(forall|i: int| 0 <= i < name.len() ==> #[trigger] name[i] != '\0');
    lemma_strip_nul_padding(name, n);
    assert(data.subrange(pos, pos + COMMAND_LEN) == field_bytes);
    assert forall|i: int, j: int| 0 <= i < j < field_bytes.len() && #[trigger] field_bytes[i] == 0 implies
        #[trigger] field_bytes[j] == 0 by {
        if i < name.len() {
            let x = name[i] as u32;
            assert(0x61 <= x <= 0x7A);
            assert(0x61 <= x <= 0x7A ==> (x as u8) as u32 == x) by (bit_vector);
            assert(b[i] == name[i] as u8);
        }
    }
}

/// The header field of `version`: its ASCII bytes, then NULs.
pub open spec fn spec_version_field() -> Seq<u8> {
    seq![0x76u8, 0x65u8, 0x72u8, 0x73u8, 0x69u8, 0x6Fu8, 0x6Eu8, 0x00u8, 0x00u8, 0x00u8, 0x00u8, 0x00u8]
}

/// The header field of `getheaders`: its ASCII bytes, then NULs.
pub open spec fn spec_getheaders_field() -> Seq<u8> {
    seq![0x67u8, 0x65u8, 0x74u8, 0x68u8, 0x65u8, 0x61u8, 0x64u8, 0x65u8, 0x72u8, 0x73u8, 0x00u8, 0x00u8]
}

/// The header field of `getaddr`: its ASCII bytes, then NULs.
pub open spec fn spec_getaddr_field() -> Seq<u8> {
    seq![0x67u8, 0x65u8, 0x74u8, 0x61u8, 0x64u8, 0x64u8, 0x72u8, 0x00u8, 0x00u8, 0x00u8, 0x00u8, 0x00u8]
}

/// The header field of `verack`: its ASCII bytes, then NULs.
pub open spec fn spec_verack_field() -> Seq<u8> {
    seq![0x76u8, 0x65u8, 0x72u8, 0x61u8, 0x63u8, 0x6Bu8, 0x00u8, 0x00u8, 0x00u8, 0x00u8, 0x00u8, 0x00u8]
}

/// The header field of `alert`: its ASCII bytes, then NULs.
pub open spec fn spec_alert_field() -> Seq<u8> {
    seq![0x61u8, 0x6Cu8, 0x65u8, 0x72u8, 0x74u8, 0x00u8, 0x00u8, 0x00u8, 0x00u8, 0x00u8, 0x00u8, 0x00u8]
}

/// The header field of `addr`: its ASCII bytes, then NULs.
pub open spec fn spec_addr_field() -> Seq<u8> {
    seq![0x61u8, 0x64u8, 0x64u8, 0x72u8, 0x00u8, 0x00u8, 0x00u8, 0x00u8, 0x00u8, 0x00u8, 0x00u8, 0x00u8]
}

/// The header field of `ping`: its ASCII bytes, then NULs.
pub open spec fn spec_ping_field() -> Seq<u8> {
    seq![0x70u8, 0x69u8, 0x6Eu8, 0x67u8, 0x00u8, 0x00u8, 0x00u8, 0x00u8, 0x00u8, 0x00u8, 0x00u8, 0x00u8]
}

/// The header field of `pong`: its ASCII bytes, then NULs.
pub open spec fn spec_pong_field() -> Seq<u8> {
    seq![0x70u8, 0x6Fu8, 0x6Eu8, 0x67u8, 0x00u8, 0x00u8, 0x00u8, 0x00u8, 0x00u8, 0x00u8, 0x00u8, 0x00u8]
}

/// The header field of `inv`: its ASCII bytes, then NULs.
pub open spec fn spec_inv_field() -> Seq<u8> {
    seq![0x69u8, 0x6Eu8, 0x76u8, 0x00u8, 0x00u8, 0x00u8, 0x00u8, 0x00u8, 0x00u8, 0x00u8, 0x00u8, 0x00u8]
}

/// Every command travels under its protocol name: the header field holds
/// the name's ASCII bytes (`version`, `getheaders`, `getaddr`, `verack`,
/// `alert`, `addr`, `ping`, `pong`, `inv`), padded with NULs to twelve bytes.
pub proof fn lemma_command_wire_names()
    ensures
        spec_command_field(spec_command_name(Command::Version)) == spec_version_field(),
        spec_command_field(spec_command_name(Command::GetHeaders)) == spec_getheaders_field(),
        spec_command_field(spec_command_name(Command::GetAddr)) == spec_getaddr_field(),
        spec_command_field(spec_command_name(Command::VerAck)) == spec_verack_field(),
        spec_command_field(spec_command_name(Command::Alert)) == spec_alert_field(),
        spec_command_field(spec_command_name(Command::Addr)) == spec_addr_field(),
        spec_command_field(spec_command_name(Command::Ping)) == spec_ping_field(),
        spec_command_field(spec_command_name(Command::Pong)) == spec_pong_field(),
        spec_command_field(spec_command_name(Command::Inv)) == spec_inv_field(),
{
    broadcast use vstd::utf8::is_ascii_chars_encode_utf8;

    assert(spec_command_field(spec_command_name(Command::Version)) =~= spec_version_field()) by {
        lemma_command_name(Command::Version);
        let name = spec_command_name(Command::Version);
        assert(vstd::utf8::is_ascii_chars(name));
        assert forall|i: int| 0 <= i < name.len() implies #[trigger] encode_utf8(name)[i] == spec_version_field()[i] by {
            assert(encode_utf8(name)[i] == name[i] as u8);
        }
    }
    assert(spec_command_field(spec_command_name(Command::GetHeaders)) =~= spec_getheaders_field()) by {
        lemma_command_name(Command::GetHeaders);
        let name = spec_command_name(Command::GetHeaders);
        assert(vstd::utf8::is_ascii_chars(name));
        assert forall|i: int| 0 <= i < name.len() implies #[trigger] encode_utf8(name)[i] == spec_getheaders_field()[i] by {
            assert(encode_utf8(name)[i] == name[i] as u8);
        }
    }
    assert(spec_command_field(spec_command_name(Command::GetAddr)) =~= spec_getaddr_field()) by {
        lemma_command_name(Command::GetAddr);
        let name = spec_command_name(Command::GetAddr);
        assert(vstd::utf8::is_ascii_chars(name));
        assert forall|i: int| 0 <= i < name.len() implies #[trigger] encode_utf8(name)[i] == spec_getaddr_field()[i] by {
            assert(encode_utf8(name)[i] == name[i] as u8);
        }
    }
    assert(spec_command_field(spec_command_name(Command::VerAck)) =~= spec_verack_field()) by {
        lemma_command_name(Command::VerAck);
        let name = spec_command_name(Command::VerAck);
        assert(vstd::utf8::is_ascii_chars(name));
        assert forall|i: int| 0 <= i < name.len() implies #[trigger] encode_utf8(name)[i] == spec_verack_field()[i] by {
            assert(encode_utf8(name)[i] == name[i] as u8);
        }
    }
    assert(spec_command_field(spec_command_name(Command::Alert)) =~= spec_alert_field()) by {
        lemma_command_name(Command::Alert);
        let name = spec_command_name(Command::Alert);
        assert(vstd::utf8::is_ascii_chars(name));
        assert forall|i: int| 0 <= i < name.len() implies #[trigger] encode_utf8(name)[i] == spec_alert_field()[i] by {
            assert(encode_utf8(name)[i] == name[i] as u8);
        }
    }
    assert(spec_command_field(spec_command_name(Command::Addr)) =~= spec_addr_field()) by {
        lemma_command_name(Command::Addr);
        let name = spec_command_name(Command::Addr);
        assert(vstd::utf8::is_ascii_chars(name));
        assert forall|i: int| 0 <= i < name.len() implies #[trigger] encode_utf8(name)[i] == spec_addr_field()[i] by {
            assert(encode_utf8(name)[i] == name[i] as u8);
        }
    }
    assert(spec_command_field(spec_command_name(Command::Ping)) =~= spec_ping_field()) by {
        lemma_command_name(Command::Ping);
        let name = spec_command_name(Command::Ping);
        assert(vstd::utf8::is_ascii_chars(name));
        assert forall|i: int| 0 <= i < name.len() implies #[trigger] encode_utf8(name)[i] == spec_ping_field()[i] by {
            assert(encode_utf8(name)[i] == name[i] as u8);
        }
    }
    assert(spec_command_field(spec_command_name(Command::Pong)) =~= spec_pong_field()) by {
        lemma_command_name(Command::Pong);
        let name = spec_command_name(Command::Pong);
        assert(vstd::utf8::is_ascii_chars(name));
        assert forall|i: int| 0 <= i < name.len() implies #[trigger] encode_utf8(name)[i] == spec_pong_field()[i] by {
            assert(encode_utf8(name)[i] == name[i] as u8);
        }
    }
    assert(spec_command_field(spec_command_name(Command::Inv)) =~= spec_inv_field()) by {
        lemma_command_name(Command::Inv);
        let name = spec_command_name(Command::Inv);
        assert(vstd::utf8::is_ascii_chars(name));
        assert forall|i: int| 0 <= i < name.len() implies #[trigger] encode_utf8(name)[i] == spec_inv_field()[i] by {
            assert(encode_utf8(name)[i] == name[i] as u8);
        }
    }
}

} // verus!
