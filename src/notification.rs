use vstd::prelude::*;

verus! {

/// What the notification daemon reports: how many notifications wait, and
/// whether do-not-disturb is on.
pub struct NotificationStatus {
    pub count: u32,
    pub dnd: bool,
}

/// The decimal digit `d`.
pub open spec fn digit_char(d: nat) -> char
    recommends
        d < 10,
{
    seq!['0', '1', '2', '3', '4', '5', '6', '7', '8', '9'][d as int]
}

/// The decimal notation of `n`, without leading zeros.
pub open spec fn decimal(n: nat) -> Seq<char>
    decreases n,
{
    if n < 10 {
        seq![digit_char(n)]
    } else {
        decimal(n / 10).push(digit_char(n % 10))
    }
}

fn digit_str(d: u32) -> (r: &'static str)
    requires
        d < 10,
    ensures
        r@ == seq![digit_char(d as nat)],
{
    proof {
        reveal_strlit("0");
        reveal_strlit("1");
        reveal_strlit("2");
        reveal_strlit("3");
        reveal_strlit("4");
        reveal_strlit("5");
        reveal_strlit("6");
        reveal_strlit("7");
        reveal_strlit("8");
        reveal_strlit("9");
    }
    let r = if d == 0 {
        "0"
    } else if d == 1 {
        "1"
    } else if d == 2 {
        "2"
    } else if d == 3 {
        "3"
    } else if d == 4 {
        "4"
    } else if d == 5 {
        "5"
    } else if d == 6 {
        "6"
    } else if d == 7 {
        "7"
    } else if d == 8 {
        "8"
    } else {
        "9"
    };
    assert(r@ =~= seq![digit_char(d as nat)]);
    r
}

/// The decimal notation of `n`.
pub fn decimal_string(n: u32) -> (r: String)
    ensures
        r@ == decimal(n as nat),
    decreases n,
{
    if n < 10 {
        String::from_str(digit_str(n))
    } else {
        let head = decimal_string(n / 10);
        head.concat(digit_str(n % 10))
    }
}

/// The markup of the indicator: a red dot while notifications wait.
pub open spec fn indicator_of(count: u32) -> Seq<char> {
    if count > 0 {
        "<span foreground='red'><sup>\u{25cf}</sup></span>"@
    } else {
        Seq::empty()
    }
}

/// The tooltip of the indicator: how many notifications wait, or that
/// none does.
pub open spec fn status_tooltip_of(count: u32) -> Seq<char> {
    if count == 0 {
        "No notifications"@
    } else if count == 1 {
        decimal(1) + " notification"@
    } else {
        decimal(count as nat) + " notifications"@
    }
}

impl NotificationStatus {
    /// The indicator's markup for this status.
    pub fn indicator_markup(&self) -> (r: String)
        ensures
            r@ == indicator_of(self.count),
    {
        if self.count > 0 {
            String::from_str("<span foreground='red'><sup>\u{25cf}</sup></span>")
        } else {
            String::new()
        }
    }

    /// The indicator's tooltip for this status.
    pub fn tooltip(&self) -> (r: String)
        ensures
            r@ == status_tooltip_of(self.count),
    {
        if self.count == 0 {
            String::from_str("No notifications")
        } else if self.count == 1 {
            decimal_string(1).concat(" notification")
        } else {
            decimal_string(self.count).concat(" notifications")
        }
    }
}

} // verus!
