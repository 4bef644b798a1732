//! Pure parsing rules of the interactive front end: the main-menu choice,
//! and the id-or-name selector used when retrieving, updating or deleting
//! an account.

use vstd::prelude::*;
use vstd::string::StringSliceAdditionalSpecFns;

verus! {

/// Longest run of digits the selector reads as a storage id.  Ids this long
/// always fit in `i64`, so the parse cannot overflow.
pub const MAX_ID_DIGITS: usize = 18;

/// One choice from the main menu.
#[derive(Clone, Copy, Debug, PartialEq, Eq, Structural)]
pub enum MenuChoice {
    AddAccount,
    ListAccounts,
    GetAccount,
    UpdateAccount,
    DeleteAccount,
    ChangeMasterPassword,
    Exit,
    Invalid,
}

/// The menu choice a trimmed input line stands for, over its UTF-8 bytes.
pub open spec fn choice_of(input: Seq<u8>) -> MenuChoice {
    if input == seq![49u8] {
        MenuChoice::AddAccount
    } else if input == seq![50u8] {
        MenuChoice::ListAccounts
    } else if input == seq![51u8] {
        MenuChoice::GetAccount
    } else if input == seq![52u8] {
        MenuChoice::UpdateAccount
    } else if input == seq![53u8] {
        MenuChoice::DeleteAccount
    } else if input == seq![54u8] {
        MenuChoice::ChangeMasterPassword
    } else if input == seq![120u8] {
        MenuChoice::Exit
    } else {
        MenuChoice::Invalid
    }
}

/// Parses one trimmed input line into a menu choice.
pub fn parse_menu_choice(input: &str) -> (r: MenuChoice)
    ensures
        r == choice_of(input.spec_bytes()),
{
    let bytes = input.as_bytes();
    if bytes.len() != 1 {
        return MenuChoice::Invalid;
    }
    let c = *vstd::slice::slice_index_get(bytes, 0);
    proof {
        assert(bytes@ =~= seq![c]);
    }
    if c == 49u8 {
        MenuChoice::AddAccount
    } else if c == 50u8 {
        MenuChoice::ListAccounts
    } else if c == 51u8 {
        MenuChoice::GetAccount
    } else if c == 52u8 {
        MenuChoice::UpdateAccount
    } else if c == 53u8 {
        MenuChoice::DeleteAccount
    } else if c == 54u8 {
        MenuChoice::ChangeMasterPassword
    } else if c == 120u8 {
        MenuChoice::Exit
    } else {
        MenuChoice::Invalid
    }
}

/// How an account to operate on was named: by its storage id, or by its
/// account name.
pub enum AccountSelector {
    ById(i64),
    ByName(String),
}

/// Whether every byte is an ASCII decimal digit.
pub open spec fn all_digits(s: Seq<u8>) -> bool {
    forall|i: int| 0 <= i < s.len() ==> 48 <= #[trigger] s[i] <= 57
}

/// The number a run of decimal digits denotes.
pub open spec fn digits_val(s: Seq<u8>) -> nat
    decreases s.len(),
{
    if s.len() == 0 {
        0
    } else {
        (digits_val(s.drop_last()) * 10 + (s.last() - 48)) as nat
    }
}

/// Whether an input selects by id: a non-empty run of at most
/// [`MAX_ID_DIGITS`] digits.
pub open spec fn selects_id(s: Seq<u8>) -> bool {
    1 <= s.len() <= MAX_ID_DIGITS && all_digits(s)
}

/// Ten to the `n`.
pub open spec fn pow10(n: nat) -> nat
    decreases n,
{
    if n == 0 {
        1
    } else {
        10 * pow10((n - 1) as nat)
    }
}

proof fn lemma_pow10_mono(a: nat, b: nat)
    requires
        a <= b,
    ensures
        pow10(a) <= pow10(b),
    decreases b,
{
    if a < b {
        lemma_pow10_mono(a, (b - 1) as nat);
    }
}

proof fn lemma_digits_val_step(s: Seq<u8>, i: int)
    requires
        0 <= i < s.len(),
        48 <= s[i] <= 57,
    ensures
        digits_val(s.subrange(0, i + 1)) == digits_val(s.subrange(0, i)) * 10 + (s[i] - 48),
{
    assert(s.subrange(0, i + 1).drop_last() =~= s.subrange(0, i));
    assert(s.subrange(0, i + 1).last() == s[i]);
}

/// Parses an id-or-name input: a non-empty run of at most
/// [`MAX_ID_DIGITS`] decimal digits selects by id (account ids are
/// positive), anything else selects by name.
pub fn parse_account_selector(input: String) -> (r: AccountSelector)
    ensures
        ({
            let b = vstd::utf8::encode_utf8(input@);
            &&& selects_id(b) ==> (r matches AccountSelector::ById(v) && 0 <= v && v as nat
                == digits_val(b))
            &&& !selects_id(b) ==> (r matches AccountSelector::ByName(n) && n == input)
        }),
{
    let bytes = input.as_str().as_bytes();
    let n = bytes.len();
    if n == 0 || n > MAX_ID_DIGITS {
        return AccountSelector::ByName(input);
    }
    let ghost whole: Seq<u8> = bytes@;
    let mut i: usize = 0;
    let mut acc: u64 = 0;
    while i < n
        invariant
            i <= n,
            n == whole.len(),
            1 <= n <= MAX_ID_DIGITS,
            bytes@ == whole,
            whole == vstd::utf8::encode_utf8(input@),
            all_digits(whole.subrange(0, i as int)),
            acc as nat == digits_val(whole.subrange(0, i as int)),
            acc < pow10(i as nat),
        decreases n - i,
    {
        let c = *vstd::slice::slice_index_get(bytes, i);
        if c < 48 || c > 57 {
            proof {
                assert(whole[i as int] == c);
                assert(!all_digits(whole));
            }
            return AccountSelector::ByName(input);
        }
        proof {
            assert(all_digits(whole.subrange(0, i + 1)));
            lemma_digits_val_step(whole, i as int);
            lemma_pow10_mono((i + 1) as nat, 18nat);
            reveal_with_fuel(pow10, 19);
            assert(pow10(18nat) == 1_000_000_000_000_000_000nat);
            assert(acc * 10 + (c - 48) < pow10((i + 1) as nat));
        }
        acc = acc * 10 + ((c - 48) as u64);
        i = i + 1;
    }
    proof {
        assert(whole.subrange(0, n as int) =~= whole);
        lemma_pow10_mono(n as nat, 18nat);
        reveal_with_fuel(pow10, 19);
        assert(pow10(18nat) == 1_000_000_000_000_000_000nat);
    }
    AccountSelector::ById(acc as i64)
}

} // verus!
