//! The lines that the game tells the player about an attack.

use vstd::prelude::*;
use vstd::string::StringExecFns;

verus! {

/// What the player is told when nobody stands where the attack goes.
pub const NO_ENEMY_MESSAGE: &'static str = "No enemy in that direction!";

/// The decimal digit for `d`.
pub open spec fn digit(d: nat) -> char
    recommends
        d < 10,
{
    if d == 0 {
        '0'
    } else if d == 1 {
        '1'
    } else if d == 2 {
        '2'
    } else if d == 3 {
        '3'
    } else if d == 4 {
        '4'
    } else if d == 5 {
        '5'
    } else if d == 6 {
        '6'
    } else if d == 7 {
        '7'
    } else if d == 8 {
        '8'
    } else {
        '9'
    }
}

/// `n` written in decimal, without leading zeros.
pub open spec fn decimal(n: nat) -> Seq<char>
    decreases n,
{
    if n < 10 {
        seq![digit(n)]
    } else {
        decimal(n / 10).push(digit(n % 10))
    }
}

/// The question that asks for the direction of an attack with `weapon`.
pub open spec fn attack_prompt(weapon: Seq<char>) -> Seq<char> {
    "Which direction do you want to attack with "@ + weapon
        + "? [Use the arrow keys to answer]"@
}

/// The line that tells of a hit.
pub open spec fn attack_report(direction: Seq<char>, weapon: Seq<char>, damage: nat) -> Seq<char> {
    "You attack "@ + direction + " with your "@ + weapon + " for "@ + decimal(damage)
        + " points of damage!"@
}

fn digit_text(d: u32) -> (text: &'static str)
    requires
        d < 10,
    ensures
        text@ == seq![digit(d as nat)],
{
    proof {
        reveal_strlit("0");
        reveal_strlit("1");
        reveal_strlit("2");
        reveal_strlit("3");
        reveal_strlit("4");
        reveal_strlit("5");
        reveal_strlit("6");
        reveal_strlit("7");
        reveal_strlit("8");
        reveal_strlit("9");
    }
    let text = if d == 0 {
        "0"
    } else if d == 1 {
        "1"
    } else if d == 2 {
        "2"
    } else if d == 3 {
        "3"
    } else if d == 4 {
        "4"
    } else if d == 5 {
        "5"
    } else if d == 6 {
        "6"
    } else if d == 7 {
        "7"
    } else if d == 8 {
        "8"
    } else {
        "9"
    };
    text
}

/// Writes `n` in decimal at the end of `text`.
pub fn append_decimal(text: &mut String, n: u32)
    ensures
        final(text)@ == old(text)@ + decimal(n as nat),
    decreases n,
{
    if n >= 10 {
        append_decimal(text, n / 10);
    }
    text.append(digit_text(n % 10));
}

/// Asks for the direction of an attack with `weapon`.
pub fn prompt_for(weapon: &str) -> (text: String)
    ensures
        text@ == attack_prompt(weapon@),
{
    let mut msg = String::from_str("Which direction do you want to attack with ");
    msg.append(weapon);
    msg.append("? [Use the arrow keys to answer]");
    msg
}

/// Tells of a hit in `direction` with `weapon` that dealt `damage`.
pub fn report_attack(direction: &str, weapon: &str, damage: u32) -> (text: String)
    ensures
        text@ == attack_report(direction@, weapon@, damage as nat),
{
    let mut msg = String::from_str("You attack ");
    msg.append(direction);
    msg.append(" with your ");
    msg.append(weapon);
    msg.append(" for ");
    append_decimal(&mut msg, damage);
    msg.append(" points of damage!");
    msg
}

} // verus!
