//! The salted password digest that the portal expects at log-in.

use encoding::Encoding;
use vstd::prelude::*;
use vstd::string::*;
use vstd::utf8::*;

verus! {

/// The 16 bytes of the digest that `md5::compute` gives for `data`.
pub uninterp spec fn md5_digest(data: Seq<u8>) -> Seq<u8>;

/// The byte that the index of code page 1251 gives for a code point, as
/// `encoding_index_singlebyte::windows_1251::backward` looks it up, and 0
/// where the code page has none.
pub uninterp spec fn windows_1251_index(code: u32) -> u8;

/// The byte that stands for `c` in code page 1251, where there is one: ASCII
/// stands for itself, any other character goes through the code page's index.
pub open spec fn windows_1251_byte(c: char) -> Option<u8> {
    if c as u32 <= 0x7f {
        Some(c as u8)
    } else if windows_1251_index(c as u32) != 0 {
        Some(windows_1251_index(c as u32))
    } else {
        None
    }
}

/// Whether every character of `text` has a byte in code page 1251.
pub open spec fn representable(text: Seq<char>) -> bool {
    forall|i: int| 0 <= i < text.len() ==> (#[trigger] windows_1251_byte(text[i])) is Some
}

/// `text` in code page 1251, one byte for each character, where every
/// character has one.
pub open spec fn windows_1251(text: Seq<char>) -> Option<Seq<u8>> {
    if representable(text) {
        Some(Seq::new(text.len(), |i: int| windows_1251_byte(text[i]).unwrap()))
    } else {
        None
    }
}

/// The lowercase hexadecimal digit for a value below 16.
pub open spec fn hex_digit(nibble: u8) -> char {
    if nibble < 10 {
        (0x30 + nibble) as char
    } else {
        (0x57 + nibble) as char
    }
}

/// `bytes` in lowercase hexadecimal, two digits for each byte, the high half
/// first.
pub open spec fn lower_hex(bytes: Seq<u8>) -> Seq<char> {
    Seq::new(
        2 * bytes.len(),
        |i: int|
            if i % 2 == 0 {
                hex_digit(bytes[i / 2] / 16)
            } else {
                hex_digit(bytes[i / 2] % 16)
            },
    )
}

/// The MD5 of `data`, in lowercase hexadecimal.
pub open spec fn md5_hex(data: Seq<u8>) -> Seq<char> {
    lower_hex(md5_digest(data))
}

/// The full encoded password for `salt`: the salt in code page 1251 is hashed,
/// and the salt followed by that hash is hashed again. `None` where the salt
/// has a character outside the code page.
pub open spec fn full_digest(salt: Seq<char>) -> Option<Seq<char>> {
    match windows_1251(salt) {
        Some(bytes) => Some(md5_hex(encode_utf8(salt + md5_hex(bytes)))),
        None => None,
    }
}

/// How many characters of the full digest the trimmed one keeps: as many as
/// the password has bytes, and no more than there are.
pub open spec fn trimmed_len(password: Seq<char>, full: Seq<char>) -> int {
    if encode_utf8(password).len() <= full.len() {
        encode_utf8(password).len() as int
    } else {
        full.len() as int
    }
}

/// The trimmed encoded password: the start of the full one, cut to the
/// password's length.
pub open spec fn trimmed_digest(password: Seq<char>, full: Seq<char>) -> Seq<char> {
    full.take(trimmed_len(password, full))
}

/// Both forms of the encoded password, as the log-in request carries them.
#[derive(Debug)]
pub struct EncodedPassword {
    pub full: String,
    pub trimmed: String,
}

/// The salt has a character that code page 1251 cannot hold.
#[derive(Debug, Clone, Copy, PartialEq, Eq)]
pub struct InvalidCharacters;

/// What `digest` owes for `password` and `salt`.
pub open spec fn is_digest_of(
    res: Result<EncodedPassword, InvalidCharacters>,
    password: Seq<char>,
    salt: Seq<char>,
) -> bool {
    match full_digest(salt) {
        Some(full) => res matches Ok(encoded) && encoded.full@ == full && encoded.trimmed@
            == trimmed_digest(password, full),
        None => res is Err,
    }
}

/// Calls `encoding::all::WINDOWS_1251.encode` with the strict trap. The
/// encoder walks the text character by character: ASCII is written as it is,
/// any other character as the byte that the index of the code page gives for
/// it, and the first character for which the index gives 0 ends the call in
/// an error.
#[verifier::external_body]
fn encode_windows_1251(text: &str) -> (res: Option<Vec<u8>>)
    ensures
        match res {
            Some(bytes) => {
                &&& bytes@.len() == text@.len()
                &&& forall|i: int|
                    0 <= i < text@.len() ==> #[trigger] bytes@[i] == if text@[i] as u32 <= 0x7f {
                        text@[i] as u8
                    } else {
                        windows_1251_index(text@[i] as u32)
                    }
                &&& forall|i: int|
                    0 <= i < text@.len() && text@[i] as u32 > 0x7f
                        ==> #[trigger] windows_1251_index(text@[i] as u32) != 0
            },
            None => exists|i: int|
                0 <= i < text@.len() && text@[i] as u32 > 0x7f && #[trigger] windows_1251_index(
                    text@[i] as u32,
                ) == 0,
        },
{
    encoding::all::WINDOWS_1251.encode(text, encoding::EncoderTrap::Strict).ok()
}

/// The text of a salt in code page 1251, where it has one.
fn salt_bytes(salt: &str) -> (res: Option<Vec<u8>>)
    ensures
        match res {
            Some(bytes) => windows_1251(salt@) == Some(bytes@),
            None => windows_1251(salt@) is None,
        },
{
    let res = encode_windows_1251(salt);
    proof {
        if res is Some {
            let bytes = res.unwrap()@;
            assert forall|i: int| 0 <= i < salt@.len() implies (#[trigger] windows_1251_byte(
                salt@[i],
            )) is Some by {
                let _ = bytes[i];
            }
            assert(bytes =~= windows_1251(salt@).unwrap());
        } else {
            let i = choose|i: int|
                0 <= i < salt@.len() && salt@[i] as u32 > 0x7f && #[trigger] windows_1251_index(
                    salt@[i] as u32,
                ) == 0;
            assert(windows_1251_byte(salt@[i]) is None);
        }
    }
    res
}

/// Calls `md5::compute` and hands out the digest's 16 bytes.
#[verifier::external_body]
fn md5_compute(data: &[u8]) -> (res: [u8; 16])
    ensures
        res@ == md5_digest(data@),
{
    md5::compute(data).0
}

/// The digit for `nibble`, as a string of one character.
fn hex_digit_str(nibble: u8) -> (res: &'static str)
    requires
        nibble < 16,
    ensures
        res@ == seq![hex_digit(nibble)],
{
    proof {
        reveal_strlit("0");
        reveal_strlit("1");
        reveal_strlit("2");
        reveal_strlit("3");
        reveal_strlit("4");
        reveal_strlit("5");
        reveal_strlit("6");
        reveal_strlit("7");
        reveal_strlit("8");
        reveal_strlit("9");
        reveal_strlit("a");
        reveal_strlit("b");
        reveal_strlit("c");
        reveal_strlit("d");
        reveal_strlit("e");
        reveal_strlit("f");
    }
    let res = match nibble {
        0 => "0",
        1 => "1",
        2 => "2",
        3 => "3",
        4 => "4",
        5 => "5",
        6 => "6",
        7 => "7",
        8 => "8",
        9 => "9",
        10 => "a",
        11 => "b",
        12 => "c",
        13 => "d",
        14 => "e",
        _ => "f",
    };
    assert(res@ =~= seq![hex_digit(nibble)]);
    res
}

/// A digest's 16 bytes in lowercase hexadecimal.
fn lower_hex_string(bytes: &[u8; 16]) -> (res: String)
    ensures
        res@ == lower_hex(bytes@),
        res@.len() == 32,
        is_ascii_chars(res@),
{
    let mut res = String::new();
    let mut i: usize = 0;
    while i < 16
        invariant
            i <= 16,
            res@.len() == 2 * i,
            forall|k: int| 0 <= k < 2 * i ==> res@[k] == #[trigger] lower_hex(bytes@)[k],
            is_ascii_chars(res@),
        decreases 16 - i,
    {
        let byte = bytes[i];
        let high = hex_digit_str(byte / 16);
        let low = hex_digit_str(byte % 16);
        res.append(high);
        res.append(low);
        i = i + 1;
    }
    assert(res@ =~= lower_hex(bytes@));
    res
}

/// The two forms of the encoded password for `password` under `salt`.
///
/// Fails exactly where the salt has a character outside code page 1251. The
/// password gives only its length in bytes, by which the trimmed form is cut;
/// a password longer than the full form leaves it whole.
pub fn digest(password: &str, salt: &str) -> (res: Result<EncodedPassword, InvalidCharacters>)
    ensures
        is_digest_of(res, password@, salt@),
{
    let in_code_page = match salt_bytes(salt) {
        Some(bytes) => bytes,
        None => {
            return Err(InvalidCharacters);
        },
    };
    let inner = lower_hex_string(&md5_compute(in_code_page.as_slice()));
    let salted = String::from_str(salt).concat(inner.as_str());
    let full = lower_hex_string(&md5_compute(salted.as_str().as_bytes()));
    let wanted = password.as_bytes().len();
    let kept: usize = if wanted <= 32 {
        wanted
    } else {
        32
    };
    let trimmed = String::from_str(full.as_str().substring_ascii(0, kept));
    assert(trimmed@ =~= trimmed_digest(password@, full@));
    Ok(EncodedPassword { full, trimmed })
}

/// Two outcomes of `digest` for one password and one salt are the same: both
/// fail, or both hold the same two strings.
pub proof fn digest_is_deterministic(
    password: Seq<char>,
    salt: Seq<char>,
    first: Result<EncodedPassword, InvalidCharacters>,
    second: Result<EncodedPassword, InvalidCharacters>,
)
    requires
        is_digest_of(first, password, salt),
        is_digest_of(second, password, salt),
    ensures
        first is Ok <==> second is Ok,
        first is Ok ==> first.unwrap().full@ == second.unwrap().full@ && first.unwrap().trimmed@
            == second.unwrap().trimmed@,
{
}

/// `digest` fails where the salt holds a character that code page 1251 has no
/// byte for, whatever the password is.
pub proof fn digest_fails_outside_code_page(
    password: Seq<char>,
    salt: Seq<char>,
    res: Result<EncodedPassword, InvalidCharacters>,
    at: int,
)
    requires
        is_digest_of(res, password, salt),
        0 <= at < salt.len(),
        windows_1251_byte(salt[at]) is None,
    ensures
        res is Err,
{
}

/// `digest` fails only where the salt holds such a character.
pub proof fn digest_succeeds_inside_code_page(
    password: Seq<char>,
    salt: Seq<char>,
    res: Result<EncodedPassword, InvalidCharacters>,
)
    requires
        is_digest_of(res, password, salt),
        representable(salt),
    ensures
        res is Ok,
{
}

/// `digest` succeeds for every salt of plain ASCII, whatever the password is.
pub proof fn digest_succeeds_on_ascii(
    password: Seq<char>,
    salt: Seq<char>,
    res: Result<EncodedPassword, InvalidCharacters>,
)
    requires
        is_digest_of(res, password, salt),
        is_ascii_chars(salt),
    ensures
        res is Ok,
{
    assert forall|i: int| 0 <= i < salt.len() implies (#[trigger] windows_1251_byte(
        salt[i],
    )) is Some by {
        assert('\0' <= salt[i] <= '\u{7f}');
    }
}

/// The trimmed digest is the start of the full one, as long as the password
/// has bytes or, where that is more than the full one has, as long as the full
/// one.
pub proof fn trimmed_is_prefix_of_full(
    password: Seq<char>,
    salt: Seq<char>,
    res: Result<EncodedPassword, InvalidCharacters>,
)
    requires
        is_digest_of(res, password, salt),
        res is Ok,
    ensures
        res.unwrap().trimmed@.is_prefix_of(res.unwrap().full@),
        encode_utf8(password).len() <= res.unwrap().full@.len() ==> res.unwrap().trimmed@.len()
            == encode_utf8(password).len(),
        encode_utf8(password).len() > res.unwrap().full@.len() ==> res.unwrap().trimmed@
            == res.unwrap().full@,
{
    let full = res.unwrap().full@;
    assert(full.take(full.len() as int) =~= full);
}

} // verus!
