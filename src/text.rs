use vstd::prelude::*;

verus! {

/// The character of a decimal digit `d`, for `0 <= d < 10`.
pub open spec fn digit_char(d: int) -> char {
    seq!['0', '1', '2', '3', '4', '5', '6', '7', '8', '9'][d]
}

/// The decimal digits of `n`, most significant first, with no leading zeros.
pub open spec fn decimal(n: nat) -> Seq<char>
    decreases n,
{
    if n < 10 {
        seq![digit_char(n as int)]
    } else {
        decimal(n / 10) + seq![digit_char((n % 10) as int)]
    }
}

/// The text of a single decimal digit.
fn digit_str(d: u32) -> (r: &'static str)
    requires
        d < 10,
    ensures
        r@ == seq![digit_char(d as int)],
{
    proof {
        reveal_strlit("0");
        reveal_strlit("1");
        reveal_strlit("2");
        reveal_strlit("3");
        reveal_strlit("4");
        reveal_strlit("5");
        reveal_strlit("6");
        reveal_strlit("7");
        reveal_strlit("8");
        reveal_strlit("9");
    }
    let r = match d {
        0 => "0",
        1 => "1",
        2 => "2",
        3 => "3",
        4 => "4",
        5 => "5",
        6 => "6",
        7 => "7",
        8 => "8",
        _ => "9",
    };
    assert(r@ =~= seq![digit_char(d as int)]);
    r
}

/// Appends the decimal digits of `n` to `s`.
pub fn push_decimal(s: &mut String, n: u32)
    ensures
        final(s)@ == old(s)@ + decimal(n as nat),
    decreases n,
{
    if n >= 10 {
        push_decimal(s, n / 10);
    }
    s.append(digit_str(n % 10));
    assert(s@ =~= old(s)@ + decimal(n as nat));
}

/// The reply to a counter request that received the value `n`.
pub open spec fn request_text(n: nat) -> Seq<char> {
    "Request #"@ + decimal(n)
}

/// The greeting for a user named `username`.
pub open spec fn user_greeting(username: Seq<char>) -> Seq<char> {
    "Welcome "@ + username
}

/// The greeting for `friend`, naming the user id it was reached through.
pub open spec fn friend_greeting(friend: Seq<char>, user_id: nat) -> Seq<char> {
    "Welcome "@ + friend + ", user_id "@ + decimal(user_id) + "!"@
}

/// Formats the reply to a counter request that received the value `n`.
pub fn request_message(n: u32) -> (r: String)
    ensures
        r@ == request_text(n as nat),
{
    let mut s = String::from_str("Request #");
    push_decimal(&mut s, n);
    s
}

/// Formats the greeting for a user named `username`.
pub fn welcome_user(username: &str) -> (r: String)
    ensures
        r@ == user_greeting(username@),
{
    let mut s = String::from_str("Welcome ");
    s.append(username);
    s
}

/// Formats the greeting for `friend` reached through the user id `user_id`.
pub fn welcome_friend(friend: &str, user_id: u32) -> (r: String)
    ensures
        r@ == friend_greeting(friend@, user_id as nat),
{
    let mut s = String::from_str("Welcome ");
    s.append(friend);
    s.append(", user_id ");
    push_decimal(&mut s, user_id);
    s.append("!");
    s
}

} // verus!
