//! The two menus: what a line of input asks for, and how a menu is laid out.

use vstd::prelude::*;
use vstd::std_specs::convert::FromSpecImpl;

verus! {

/// What can be asked for before anyone is logged in.
#[derive(Clone, Copy, Debug, PartialEq, Eq, Structural)]
pub enum Action {
    Login,
    CreateAccount,
    Exit,
    Unknown,
}

/// What a user who is logged in can ask for.
#[derive(Clone, Copy, Debug, PartialEq, Eq, Structural)]
pub enum UserAction {
    Deposit,
    Withdraw,
    Logout,
    Unknown,
}

/// The place on a menu that a line of input names: 1, 2 or 3 where the line is
/// that digit and nothing else, and 0 for any other line.
pub open spec fn choice_of(line: Seq<char>) -> int {
    if line.len() != 1 {
        0
    } else if line[0] == '1' {
        1
    } else if line[0] == '2' {
        2
    } else if line[0] == '3' {
        3
    } else {
        0
    }
}

/// The action that a line of input asks for on the first menu.
pub open spec fn action_of(line: Seq<char>) -> Action {
    let choice = choice_of(line);
    if choice == 1 {
        Action::Login
    } else if choice == 2 {
        Action::CreateAccount
    } else if choice == 3 {
        Action::Exit
    } else {
        Action::Unknown
    }
}

/// The action that a line of input asks for on the menu of a session.
pub open spec fn user_action_of(line: Seq<char>) -> UserAction {
    let choice = choice_of(line);
    if choice == 1 {
        UserAction::Deposit
    } else if choice == 2 {
        UserAction::Withdraw
    } else if choice == 3 {
        UserAction::Logout
    } else {
        UserAction::Unknown
    }
}

/// The place on a menu that a line of input names.
fn choice(line: &str) -> (n: u8)
    ensures
        n == choice_of(line@),
{
    if line.unicode_len() != 1 {
        0
    } else {
        let c = line.get_char(0);
        if c == '1' {
            1
        } else if c == '2' {
            2
        } else if c == '3' {
            3
        } else {
            0
        }
    }
}

impl<'a> From<&'a str> for Action {
    fn from(line: &'a str) -> (action: Action) {
        let n = choice(line);
        if n == 1 {
            Action::Login
        } else if n == 2 {
            Action::CreateAccount
        } else if n == 3 {
            Action::Exit
        } else {
            Action::Unknown
        }
    }
}

impl<'a> FromSpecImpl<&'a str> for Action {
    open spec fn obeys_from_spec() -> bool {
        true
    }

    open spec fn from_spec(line: &'a str) -> Action {
        action_of(line@)
    }
}

impl<'a> From<&'a str> for UserAction {
    fn from(line: &'a str) -> (action: UserAction) {
        let n = choice(line);
        if n == 1 {
            UserAction::Deposit
        } else if n == 2 {
            UserAction::Withdraw
        } else if n == 3 {
            UserAction::Logout
        } else {
            UserAction::Unknown
        }
    }
}

impl<'a> FromSpecImpl<&'a str> for UserAction {
    open spec fn obeys_from_spec() -> bool {
        true
    }

    open spec fn from_spec(line: &'a str) -> UserAction {
        user_action_of(line@)
    }
}

/// How many bytes a line of a menu takes, bars included, where its entry
/// leaves room for them.
pub const MENU_WIDTH: usize = 44;

/// The ten decimal digits, in order.
pub open spec fn digits() -> Seq<char> {
    seq!['0', '1', '2', '3', '4', '5', '6', '7', '8', '9']
}

/// The number in decimal digits, without leading zeros.
pub open spec fn decimal_text(n: nat) -> Seq<char>
    decreases n,
{
    if n < 10 {
        seq![digits()[n as int]]
    } else {
        decimal_text(n / 10).push(digits()[(n % 10) as int])
    }
}

/// How many bytes the text takes in UTF-8.
pub open spec fn byte_length(text: Seq<char>) -> nat {
    vstd::utf8::encode_utf8(text).len()
}

/// The entry of a menu: a bar, the number, a colon and the item, with a
/// space after the bar and after the colon.
pub open spec fn menu_entry(number: nat, item: Seq<char>) -> Seq<char> {
    seq!['|', ' '] + decimal_text(number) + seq![':', ' '] + item
}

/// The line of a menu: the entry, spaces up to the last byte of the width but
/// one, and a closing bar. An entry that already fills the width, or all of it
/// but one byte, gets no space.
pub open spec fn menu_line_text(number: nat, item: Seq<char>) -> Seq<char> {
    let entry = menu_entry(number, item);
    let room = MENU_WIDTH - 1 - byte_length(entry);
    let padding = if room > 0 {
        room
    } else {
        0
    };
    entry + Seq::new(padding as nat, |i: int| ' ') + seq!['|']
}

/// The border above and below a menu: as many `=` as the menu is wide.
pub fn menu_border() -> (border: String)
    ensures
        border@ == Seq::new(MENU_WIDTH as nat, |i: int| '='),
{
    let mut border = String::new();
    let mut i: usize = 0;
    while i < MENU_WIDTH
        invariant
            i <= MENU_WIDTH,
            border@ == Seq::new(i as nat, |j: int| '='),
        decreases MENU_WIDTH - i,
    {
        proof {
            reveal_strlit("=");
        }
        border.append("=");
        i += 1;
        assert(border@ =~= Seq::new(i as nat, |j: int| '='));
    }
    border
}

/// One decimal digit as text.
fn digit_text(d: usize) -> (s: &'static str)
    requires
        d < 10,
    ensures
        s@ == seq![digits()[d as int]],
{
    proof {
        reveal_strlit("0");
        reveal_strlit("1");
        reveal_strlit("2");
        reveal_strlit("3");
        reveal_strlit("4");
        reveal_strlit("5");
        reveal_strlit("6");
        reveal_strlit("7");
        reveal_strlit("8");
        reveal_strlit("9");
    }
    let s = if d == 0 {
        "0"
    } else if d == 1 {
        "1"
    } else if d == 2 {
        "2"
    } else if d == 3 {
        "3"
    } else if d == 4 {
        "4"
    } else if d == 5 {
        "5"
    } else if d == 6 {
        "6"
    } else if d == 7 {
        "7"
    } else if d == 8 {
        "8"
    } else {
        "9"
    };
    assert(s@ =~= seq![digits()[d as int]]);
    s
}

/// The number in decimal digits.
pub fn decimal(n: usize) -> (text: String)
    ensures
        text@ == decimal_text(n as nat),
    decreases n,
{
    if n < 10 {
        digit_text(n).to_owned()
    } else {
        let mut text = decimal(n / 10);
        text.append(digit_text(n % 10));
        assert(text@ =~= decimal_text(n as nat));
        text
    }
}

/// The line of a menu for the item with the given number, or `None` where the
/// entry is longer than the menu is wide.
pub fn menu_line(number: usize, item: &str) -> (r: Option<String>)
    ensures
        byte_length(menu_entry(number as nat, item@)) <= MENU_WIDTH ==> r is Some && r->0@
            == menu_line_text(number as nat, item@),
        byte_length(menu_entry(number as nat, item@)) > MENU_WIDTH ==> r is None,
{
    proof {
        reveal_strlit("| ");
        reveal_strlit(": ");
        reveal_strlit(" ");
        reveal_strlit("|");
    }
    let mut line = String::new();
    line.append("| ");
    line.append(decimal(number).as_str());
    line.append(": ");
    line.append(item);
    assert(line@ =~= menu_entry(number as nat, item@));
    let taken = line.as_str().as_bytes().len();
    if taken > MENU_WIDTH {
        return None;
    }
    let ghost entry = line@;
    let padding: usize = if taken < MENU_WIDTH - 1 {
        MENU_WIDTH - 1 - taken
    } else {
        0
    };
    let mut i: usize = 0;
    while i < padding
        invariant
            i <= padding,
            line@ == entry + Seq::new(i as nat, |j: int| ' '),
        decreases padding - i,
    {
        proof {
            reveal_strlit(" ");
        }
        line.append(" ");
        i += 1;
        assert(line@ =~= entry + Seq::new(i as nat, |j: int| ' '));
    }
    line.append("|");
    assert(line@ =~= menu_line_text(number as nat, item@));
    Some(line)
}

/// Whether every entry of the menu fits in its width.
pub open spec fn menu_fits(items: Seq<&str>) -> bool {
    forall|k: int|
        0 <= k < items.len() ==> byte_length(menu_entry((k + 1) as nat, (#[trigger] items[k])@))
            <= MENU_WIDTH
}

/// Whether `lines` are the menu of `items`: a border first and last, and
/// between them the line of each item, numbered from 1.
pub open spec fn menu_is(items: Seq<&str>, lines: Seq<String>) -> bool {
    &&& lines.len() == items.len() + 2
    &&& lines[0]@ == Seq::new(MENU_WIDTH as nat, |j: int| '=')
    &&& lines[lines.len() - 1]@ == Seq::new(MENU_WIDTH as nat, |j: int| '=')
    &&& forall|k: int|
        0 <= k < items.len() ==> (#[trigger] lines[k + 1])@ == menu_line_text(
            (k + 1) as nat,
            items[k]@,
        )
}

/// The whole menu, line by line: the border, one line for each item,
/// numbered from 1, and the border again; or `None` where some entry is
/// longer than the menu is wide.
pub fn menu(items: &Vec<&str>) -> (r: Option<Vec<String>>)
    ensures
        menu_fits(items@) ==> r is Some && menu_is(items@, r->0@),
        !menu_fits(items@) ==> r is None,
{
    let mut lines: Vec<String> = Vec::new();
    lines.push(menu_border());
    let mut i: usize = 0;
    while i < items.len()
        invariant
            i <= items.len(),
            lines@.len() == i + 1,
            lines@[0]@ == Seq::new(MENU_WIDTH as nat, |j: int| '='),
            forall|k: int|
                0 <= k < i ==> byte_length(menu_entry((k + 1) as nat, (#[trigger] items@[k])@))
                    <= MENU_WIDTH,
            forall|k: int|
                0 <= k < i ==> (#[trigger] lines@[k + 1])@ == menu_line_text(
                    (k + 1) as nat,
                    items@[k]@,
                ),
        decreases items.len() - i,
    {
        match menu_line(i + 1, items[i]) {
            None => {
                return None;
            },
            Some(line) => {
                lines.push(line);
            },
        }
        i += 1;
    }
    lines.push(menu_border());
    Some(lines)
}

} // verus!
