//! The draw: a number worked out from the block, the transaction and the
//! record, by way of a SHA-256 digest, and the test whether it wins.

use vstd::prelude::*;
use vstd::string::{StrSliceExecFns, StringExecFns};
use std::collections::HashSet;
use crate::errors::StdError;
use crate::treasure::error::ContractError;

verus! {

broadcast use vstd::std_specs::hash::group_hash_axioms;

/// The characters of which one goes into the seed, by the block's second.
pub const CHARACTERS: [char; 62] = [
    '2', 'f', 'x', 'n', 'l', 'G', 'j', 'O', 'T', 'h', 'u', 'k', 'r', 'Q', 'D', 'w', 'b', 'I', 'a',
    'Y', '4', 'Z', 'H', 'c', 'W', 'N', 'X', 'v', 'C', 'm', '7', 's', 'F', '1', '9', 'q', '5', 'J',
    'e', 'P', '0', '6', 'y', 'K', 'L', 'E', '8', 'p', 'i', 'M', 'R', 'A', 'B', '3', 'z', 't', 'U',
    'g', 'V', 'S', 'o', 'd',
];

/// The ten digits.
pub const DIGITS: [char; 10] = ['0', '1', '2', '3', '4', '5', '6', '7', '8', '9'];

/// What the draw reads of the block and the transaction.
#[derive(Clone, Copy, Debug, PartialEq, Eq, Structural)]
pub struct Env {
    /// The block's time in nanoseconds.
    pub block_time_nanos: u64,
    pub block_height: u64,
    /// The transaction's place in the block, where there is a transaction.
    pub transaction_index: Option<u32>,
}

impl Env {
    /// The block's time in whole seconds.
    pub open spec fn spec_seconds(&self) -> u64 {
        self.block_time_nanos / 1_000_000_000
    }

    /// The block's time in whole seconds.
    #[verifier::when_used_as_spec(spec_seconds)]
    pub fn seconds(&self) -> (r: u64)
        ensures
            r == self.spec_seconds(),
    {
        self.block_time_nanos / 1_000_000_000
    }

    /// The transaction's place in the block, and zero where there is no
    /// transaction.
    pub open spec fn index(&self) -> u32 {
        match self.transaction_index {
            Some(i) => i,
            None => 0,
        }
    }
}

/// A number in decimal notation.
pub open spec fn decimal(n: nat) -> Seq<char>
    decreases n,
{
    if n < 10 {
        seq![DIGITS@[n as int]]
    } else {
        decimal(n / 10).push(DIGITS@[(n % 10) as int])
    }
}

/// The texts one after the other, each followed by a comma.
pub open spec fn with_commas(parts: Seq<Seq<char>>) -> Seq<char>
    decreases parts.len(),
{
    if parts.len() == 0 {
        Seq::empty()
    } else {
        with_commas(parts.drop_last()) + parts.last() + seq![',']
    }
}

/// The views of a list of texts.
pub open spec fn views(parts: Seq<String>) -> Seq<Seq<char>> {
    Seq::new(parts.len(), |i: int| parts[i]@)
}

/// The seed of a draw: the given factors, a character picked by the block's
/// second, the unique factor, the block's nanoseconds, its height and the
/// transaction's index, with commas between.
pub open spec fn random_seed(env: &Env, unique_factor: Seq<char>, rand_factor: Seq<Seq<char>>) -> Seq<
    char,
> {
    with_commas(rand_factor) + seq![CHARACTERS@[(env.spec_seconds() % 62) as int]] + seq![',']
        + unique_factor + seq![','] + decimal(env.block_time_nanos as nat) + seq![','] + decimal(
        env.block_height as nat,
    ) + seq![','] + decimal(env.index() as nat)
}

/// The SHA-256 digest of a text's bytes, in hexadecimal notation.
pub uninterp spec fn sha256_hex(input: Seq<char>) -> Seq<char>;

/// Whether the character is a digit or a letter from `a` to `f`.
pub open spec fn is_lower_hex(c: char) -> bool {
    ('0' <= c && c <= '9') || ('a' <= c && c <= 'f')
}

/// The value of a hexadecimal digit, of either case.
pub open spec fn hex_digit(c: char) -> Option<nat> {
    if '0' <= c && c <= '9' {
        Some((c as u32 - 48) as nat)
    } else if 'a' <= c && c <= 'f' {
        Some((c as u32 - 87) as nat)
    } else if 'A' <= c && c <= 'F' {
        Some((c as u32 - 55) as nat)
    } else {
        None
    }
}

/// The number that hexadecimal digits stand for; none where one of them is
/// no hexadecimal digit.
pub open spec fn hex_number(s: Seq<char>) -> Option<nat>
    decreases s.len(),
{
    if s.len() == 0 {
        Some(0)
    } else {
        match (hex_number(s.drop_last()), hex_digit(s.last())) {
            (Some(n), Some(d)) => Some(16 * n + d),
            _ => None,
        }
    }
}

/// The number of a draw from a digest: the number of its first six digits
/// plus the number of its last six; none where the digest has fewer than six
/// characters or one of the twelve is no hexadecimal digit.
pub open spec fn random_number_spec(digest: Seq<char>) -> Option<nat> {
    if digest.len() < 6 {
        None
    } else {
        match (
            hex_number(digest.take(6)),
            hex_number(digest.skip(digest.len() - 6)),
        ) {
            (Some(a), Some(b)) => Some(a + b),
            _ => None,
        }
    }
}

/// `String::push` of std: the text with the character added at its end.
#[verifier::external_body]
fn push_char(s: &mut String, c: char)
    ensures
        final(s)@ == old(s)@.push(c),
{
    s.push(c)
}

/// `digest` of the sha256 crate on a text: the SHA-256 digest of the text's
/// bytes, as 64 hexadecimal digits with the letters in lower case.
#[verifier::external_body]
fn digest(seed: &str) -> (r: String)
    ensures
        r@ == sha256_hex(seed@),
        r@.len() == 64,
        forall|i: int| 0 <= i < 64 ==> is_lower_hex(#[trigger] r@[i]),
{
    sha256::digest(seed)
}

/// Adds a number in decimal notation to the end of a text.
pub fn push_decimal(s: &mut String, n: u64)
    ensures
        final(s)@ == old(s)@ + decimal(n as nat),
    decreases n,
{
    if n >= 10 {
        push_decimal(s, n / 10);
    }
    let digit: usize = (n % 10) as usize;
    push_char(s, DIGITS[digit]);
    assert(s@ =~= old(s)@ + decimal(n as nat));
}

/// The seed of a draw.
pub fn _get_random_seed(env: &Env, unique_factor: String, rand_factor: Vec<String>) -> (r: String)
    ensures
        r@ == random_seed(env, unique_factor@, views(rand_factor@)),
{
    let mut seed = String::new();
    let mut i: usize = 0;
    proof {
        reveal_strlit(",");
        assert(views(rand_factor@).take(0) =~= Seq::<Seq<char>>::empty());
    }
    while i < rand_factor.len()
        invariant
            i <= rand_factor@.len(),
            ","@ == seq![','],
            seed@ == with_commas(views(rand_factor@).take(i as int)),
        decreases rand_factor@.len() - i,
    {
        proof {
            let parts = views(rand_factor@);
            assert(parts.take(i + 1).drop_last() =~= parts.take(i as int));
            assert(parts.take(i + 1).last() == rand_factor@[i as int]@);
        }
        seed.append(rand_factor[i].as_str());
        seed.append(",");
        i += 1;
    }
    proof {
        assert(views(rand_factor@).take(i as int) =~= views(rand_factor@));
    }
    let mod_time: usize = (env.seconds() % 62) as usize;
    push_char(&mut seed, CHARACTERS[mod_time]);
    seed.append(",");
    seed.append(unique_factor.as_str());
    seed.append(",");
    push_decimal(&mut seed, env.block_time_nanos);
    seed.append(",");
    push_decimal(&mut seed, env.block_height);
    seed.append(",");
    let index: u32 = match env.transaction_index {
        Some(i) => i,
        None => 0,
    };
    push_decimal(&mut seed, index as u64);
    proof {
        assert(seed@ =~= random_seed(env, unique_factor@, views(rand_factor@)));
    }
    seed
}

/// The value of a hexadecimal digit, or nothing for another character.
pub fn hex_digit_value(c: char) -> (r: Option<u64>)
    ensures
        r is Some <==> hex_digit(c) is Some,
        r is Some ==> r->Some_0 == hex_digit(c)->Some_0 && r->Some_0 < 16,
{
    let v: u32 = c as u32;
    if 48 <= v && v <= 57 {
        Some((v - 48) as u64)
    } else if 97 <= v && v <= 102 {
        Some((v - 87) as u64)
    } else if 65 <= v && v <= 70 {
        Some((v - 55) as u64)
    } else {
        None
    }
}

/// Six hexadecimal digits of a text from a position on, as a number.
fn six_digits(digest: &str, from: usize) -> (r: Option<u64>)
    requires
        from + 6 <= digest@.len(),
        from + 6 <= usize::MAX,
    ensures
        r is Some <==> hex_number(digest@.subrange(from as int, from + 6)) is Some,
        r is Some ==> r->Some_0 == hex_number(digest@.subrange(from as int, from + 6))->Some_0
            && r->Some_0 < 0x100_0000,
{
    let ghost six = digest@.subrange(from as int, from + 6);
    let mut value: u64 = 0;
    let mut i: usize = 0;
    proof {
        assert(six.take(0).len() == 0);
    }
    while i < 6
        invariant
            i <= 6,
            from + 6 <= digest@.len(),
            from + 6 <= usize::MAX,
            six == digest@.subrange(from as int, from + 6),
            hex_number(six.take(i as int)) == Some(value as nat),
            value < pow16(i as int),
        decreases 6 - i,
    {
        let c = digest.get_char(from + i);
        proof {
            assert(six.take(i + 1).drop_last() =~= six.take(i as int));
            assert(six.take(i + 1).last() == c);
        }
        match hex_digit_value(c) {
            Some(d) => {
                value = 16 * value + d;
            },
            None => {
                proof {
                    lemma_hex_number_prefix(six, i + 1);
                }
                return None;
            },
        }
        i += 1;
    }
    proof {
        assert(six.take(6) =~= six);
    }
    Some(value)
}

/// Sixteen to the power `n`, for `n` up to six.
pub open spec fn pow16(n: int) -> int {
    if n <= 0 {
        1
    } else if n == 1 {
        0x10
    } else if n == 2 {
        0x100
    } else if n == 3 {
        0x1000
    } else if n == 4 {
        0x1_0000
    } else if n == 5 {
        0x10_0000
    } else {
        0x100_0000
    }
}

/// Digits of which a part at the front is no number are no number.
pub proof fn lemma_hex_number_prefix(s: Seq<char>, upto: int)
    requires
        0 <= upto <= s.len(),
        hex_number(s.take(upto)) is None,
    ensures
        hex_number(s) is None,
    decreases s.len() - upto,
{
    if upto < s.len() {
        assert(s.take(upto + 1).drop_last() =~= s.take(upto));
        lemma_hex_number_prefix(s, upto + 1);
    } else {
        assert(s.take(upto) =~= s);
    }
}

/// The number of a draw from a digest; refused where the digest is none.
pub fn random_number_of(digest: &str) -> (r: Result<u64, ContractError>)
    ensures
        match random_number_spec(digest@) {
            Some(n) => r == Ok::<u64, ContractError>(n as u64) && n < 0x200_0000,
            None => r == Err::<u64, ContractError>(ContractError::ParseInt {  }),
        },
{
    let len: usize = digest.unicode_len();
    if len < 6 {
        return Err(ContractError::ParseInt {  });
    }
    proof {
        assert(digest@.subrange(0, 6) =~= digest@.take(6));
        assert(digest@.subrange(len - 6, len as int) =~= digest@.skip(len - 6));
    }
    let first = match six_digits(digest, 0) {
        Some(v) => v,
        None => {
            return Err(ContractError::ParseInt {  });
        },
    };
    let last = match six_digits(digest, len - 6) {
        Some(v) => v,
        None => {
            return Err(ContractError::ParseInt {  });
        },
    };
    Ok(first + last)
}

/// The number of a draw from its seed: that of the seed's SHA-256 digest.
pub fn _cal_random_number(seed: &str) -> (r: Result<u64, ContractError>)
    ensures
        match random_number_spec(sha256_hex(seed@)) {
            Some(n) => r == Ok::<u64, ContractError>(n as u64),
            None => r == Err::<u64, ContractError>(ContractError::ParseInt {  }),
        },
{
    let result = digest(seed);
    random_number_of(result.as_str())
}

/// Whether the draw with the given number wins: its remainder on division
/// by `mod_num` is a winning number. Refused where `mod_num` is zero.
pub fn is_winning(random_number: u64, winning_num: &HashSet<u64>, mod_num: u64) -> (r: Result<
    bool,
    ContractError,
>)
    ensures
        mod_num == 0 ==> r == Err::<bool, ContractError>(
            ContractError::Std(StdError::DivideByZero {  }),
        ),
        mod_num != 0 ==> r == Ok::<bool, ContractError>(
            winning_num@.contains((random_number % mod_num) as u64),
        ),
{
    if mod_num == 0 {
        return Err(ContractError::Std(StdError::divide_by_zero()));
    }
    let luck_num: u64 = random_number % mod_num;
    Ok(winning_num.contains(&luck_num))
}

/// What a draw comes to: refused where the digest of its seed is no number
/// or `mod_num` is zero, and else whether it wins.
pub open spec fn winning_spec(
    env: &Env,
    unique_factor: Seq<char>,
    rand_factor: Seq<Seq<char>>,
    winning_num: Set<u64>,
    mod_num: u64,
) -> Result<bool, ContractError> {
    match random_number_spec(sha256_hex(random_seed(env, unique_factor, rand_factor))) {
        None => Err(ContractError::ParseInt {  }),
        Some(n) => if mod_num == 0 {
            Err(ContractError::Std(StdError::DivideByZero {  }))
        } else {
            Ok(winning_num.contains(((n as u64) % mod_num) as u64))
        },
    }
}

/// Whether the draw for the given block, transaction and factors wins.
pub fn get_winning(
    env: &Env,
    unique_factor: String,
    rand_factor: Vec<String>,
    winning_num: &HashSet<u64>,
    mod_num: u64,
) -> (r: Result<bool, ContractError>)
    ensures
        r == winning_spec(env, unique_factor@, views(rand_factor@), winning_num@, mod_num),
{
    let seed = _get_random_seed(env, unique_factor, rand_factor);
    let random_number = _cal_random_number(seed.as_str())?;
    is_winning(random_number, winning_num, mod_num)
}

} // verus!
