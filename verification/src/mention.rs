use serenity::model::id::UserId;
use serenity::model::mention::Mentionable;
use vstd::prelude::*;

verus! {

/// The character of the decimal digit `d` (`0 <= d < 10`).
pub open spec fn digit_char(d: nat) -> char {
    (d + 48) as char
}

/// `n` written in base ten without leading zeros, as `u64`'s `Display` writes it.
pub open spec fn decimal(n: nat) -> Seq<char>
    decreases n,
{
    if n < 10 {
        seq![digit_char(n)]
    } else {
        decimal(n / 10) + seq![digit_char(n % 10)]
    }
}

/// Every number is written with at least one digit, and with at least two
/// from 10 on.
pub proof fn lemma_decimal_len(n: nat)
    ensures
        decimal(n).len() >= 1,
        n >= 10 ==> decimal(n).len() >= 2,
    decreases n,
{
    if n >= 10 {
        lemma_decimal_len(n / 10);
    }
}

/// Different numbers are written differently.
pub proof fn lemma_decimal_injective(a: nat, b: nat)
    requires
        decimal(a) == decimal(b),
    ensures
        a == b,
    decreases a,
{
    lemma_decimal_len(a);
    lemma_decimal_len(b);
    let s = decimal(a);
    if a < 10 {
        if b >= 10 {
            assert(false);
        }
        assert(s[0] == digit_char(a) && s[0] == digit_char(b));
    } else {
        if b < 10 {
            assert(false);
        }
        let pa = decimal(a / 10);
        let pb = decimal(b / 10);
        assert(s.last() == digit_char(a % 10));
        assert(decimal(b).last() == digit_char(b % 10));
        assert(a % 10 == b % 10);
        assert(s.drop_last() =~= pa);
        assert(decimal(b).drop_last() =~= pb);
        lemma_decimal_injective(a / 10, b / 10);
    }
}

/// The text that mentions the user with the id `user` in a message: `<@`, the
/// id in decimal, and `>`.
pub open spec fn mention_text(user: u64) -> Seq<char> {
    seq!['<', '@'] + decimal(user as nat) + seq!['>']
}

/// Mentions a user: serenity's `UserId::new(user).mention()`, written out by its
/// `Display` (`ToString::to_string`). serenity's `Mention` writes a user as
/// `<@{id}>` and the id by `u64`'s `Display`; that is what the contract claims.
/// `UserId::new` panics on 0, which `requires` leaves out.
#[verifier::external_body]
pub(crate) fn user_mention(user: u64) -> (s: String)
    requires
        user != 0,
    ensures
        s@ == mention_text(user),
{
    UserId::new(user).mention().to_string()
}

} // verus!
