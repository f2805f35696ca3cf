//! Field decoding: connection state, congestion-avoidance state and
//! microsecond durations into display strings.
use vstd::prelude::*;

verus! {

/// The twelve labels of a TCP connection state: the eleven named states in
/// the kernel's numeric order (codes 1 to 11), then the fallback.
pub open spec fn tcp_state_labels() -> Seq<Seq<char>> {
    seq![
        "ESTABLISHED"@,
        "SYN_SENT"@,
        "SYN_RECV"@,
        "FIN_WAIT1"@,
        "FIN_WAIT2"@,
        "TIME_WAIT"@,
        "CLOSE"@,
        "CLOSE_WAIT"@,
        "LAST_ACK"@,
        "LISTEN"@,
        "CLOSING"@,
        "UNKNOWN"@,
    ]
}

/// The label of a connection-state code: codes 1 to 11 name a state,
/// every other code is `UNKNOWN`.
pub open spec fn tcp_state_label(code: u8) -> Seq<char> {
    if 1 <= code <= 11 {
        tcp_state_labels()[code - 1]
    } else {
        "UNKNOWN"@
    }
}

/// The five labels of a congestion-avoidance state (codes 0 to 4), then the
/// fallback.
pub open spec fn ca_state_labels() -> Seq<Seq<char>> {
    seq!["OPEN"@, "DISORDER"@, "CWR"@, "RECOVERY"@, "LOSS"@, "UNKNOWN"@]
}

/// The label of a congestion-avoidance code: codes 0 to 4 name a state,
/// every other code is `UNKNOWN`.
pub open spec fn ca_state_label(code: u8) -> Seq<char> {
    if code <= 4 {
        ca_state_labels()[code as int]
    } else {
        "UNKNOWN"@
    }
}

/// The decimal digit for `d < 10`.
pub open spec fn digit(d: nat) -> char {
    seq!['0', '1', '2', '3', '4', '5', '6', '7', '8', '9'][d as int]
}

/// The decimal rendering of `n`, without leading zeros.
pub open spec fn decimal(n: nat) -> Seq<char>
    decreases n,
{
    if n < 10 {
        seq![digit(n)]
    } else {
        decimal(n / 10).push(digit(n % 10))
    }
}

/// A duration in microseconds as shown to a reader: `0` bare, below a
/// millisecond in `µs`, below a second in whole `ms`, else in whole `s`.
pub open spec fn human_duration(us: nat) -> Seq<char> {
    if us == 0 {
        "0"@
    } else if us < 1000 {
        decimal(us) + "µs"@
    } else if us < 1_000_000 {
        decimal(us / 1000) + "ms"@
    } else {
        decimal(us / 1_000_000) + "s"@
    }
}

/// The twelve connection-state labels are pairwise distinct, so every code,
/// which decodes to one of them, names exactly one.
pub proof fn lemma_tcp_state_labels_distinct()
    ensures
        tcp_state_labels().len() == 12,
        forall|i: int, j: int|
            0 <= i < j < 12 ==> #[trigger] tcp_state_labels()[i] != #[trigger] tcp_state_labels()[j],
        forall|code: u8| #[trigger] tcp_state_labels().contains(tcp_state_label(code)),
{
    reveal_strlit("ESTABLISHED");
    reveal_strlit("SYN_SENT");
    reveal_strlit("SYN_RECV");
    reveal_strlit("FIN_WAIT1");
    reveal_strlit("FIN_WAIT2");
    reveal_strlit("TIME_WAIT");
    reveal_strlit("CLOSE");
    reveal_strlit("CLOSE_WAIT");
    reveal_strlit("LAST_ACK");
    reveal_strlit("LISTEN");
    reveal_strlit("CLOSING");
    reveal_strlit("UNKNOWN");
    let labels = tcp_state_labels();
    assert forall|i: int, j: int| 0 <= i < j < 12 implies #[trigger] labels[i] != #[trigger] labels[j] by {
        // Length and last character already tell the twelve labels apart.
        assert(0 <= i < 12 ==> labels[i].len() > 0);
        if labels[i] == labels[j] {
            assert(labels[i].len() == labels[j].len());
            assert(labels[i].last() == labels[j].last());
        }
    }
    assert forall|code: u8| #[trigger] tcp_state_labels().contains(tcp_state_label(code)) by {
        if 1 <= code <= 11 {
            assert(tcp_state_labels()[code - 1] == tcp_state_label(code));
        } else {
            assert(tcp_state_labels()[11] == tcp_state_label(code));
        }
    }
}

/// The six congestion-avoidance labels are pairwise distinct, and every code
/// decodes to one of them.
pub proof fn lemma_ca_state_labels_distinct()
    ensures
        ca_state_labels().len() == 6,
        forall|i: int, j: int|
            0 <= i < j < 6 ==> #[trigger] ca_state_labels()[i] != #[trigger] ca_state_labels()[j],
        forall|code: u8| #[trigger] ca_state_labels().contains(ca_state_label(code)),
{
    reveal_strlit("OPEN");
    reveal_strlit("DISORDER");
    reveal_strlit("CWR");
    reveal_strlit("RECOVERY");
    reveal_strlit("LOSS");
    reveal_strlit("UNKNOWN");
    let labels = ca_state_labels();
    assert forall|i: int, j: int| 0 <= i < j < 6 implies #[trigger] labels[i] != #[trigger] labels[j] by {
        // The six labels differ in length or in their first character.
        if labels[i] == labels[j] {
            assert(labels[i].len() == labels[j].len());
            assert(labels[i][0] == labels[j][0]);
        }
    }
    assert forall|code: u8| #[trigger] ca_state_labels().contains(ca_state_label(code)) by {
        if code <= 4 {
            assert(ca_state_labels()[code as int] == ca_state_label(code));
        } else {
            assert(ca_state_labels()[5] == ca_state_label(code));
        }
    }
}

/// Decodes a kernel connection-state code into its label.
pub fn tcp_state_to_string(state: u8) -> (r: String)
    ensures
        r@ == tcp_state_label(state),
        tcp_state_labels().contains(r@),
        !(1 <= state <= 11) ==> r@ == "UNKNOWN"@,
        1 <= state <= 11 ==> r@ == tcp_state_labels()[state - 1],
{
    let label = match state {
        1 => "ESTABLISHED",
        2 => "SYN_SENT",
        3 => "SYN_RECV",
        4 => "FIN_WAIT1",
        5 => "FIN_WAIT2",
        6 => "TIME_WAIT",
        7 => "CLOSE",
        8 => "CLOSE_WAIT",
        9 => "LAST_ACK",
        10 => "LISTEN",
        11 => "CLOSING",
        _ => "UNKNOWN",
    };
    let r = String::from_str(label);
    assert(tcp_state_labels()[tcp_state_labels().len() - 1] == "UNKNOWN"@);
    if 1 <= state && state <= 11 {
        assert(tcp_state_labels()[state - 1] == r@);
    } else {
        assert(tcp_state_labels()[11] == r@);
    }
    r
}

/// Decodes a kernel congestion-avoidance code into its label.
pub fn ca_state_to_string(state: u8) -> (r: String)
    ensures
        r@ == ca_state_label(state),
        ca_state_labels().contains(r@),
        state > 4 ==> r@ == "UNKNOWN"@,
        state <= 4 ==> r@ == ca_state_labels()[state as int],
{
    let label = match state {
        0 => "OPEN",
        1 => "DISORDER",
        2 => "CWR",
        3 => "RECOVERY",
        4 => "LOSS",
        _ => "UNKNOWN",
    };
    let r = String::from_str(label);
    if state <= 4 {
        assert(ca_state_labels()[state as int] == r@);
    } else {
        assert(ca_state_labels()[5] == r@);
    }
    r
}

/// The one-character string of the digit `d`.
fn digit_str(d: u32) -> (r: &'static str)
    requires
        d < 10,
    ensures
        r@ == seq![digit(d as nat)],
{
    let r = match d {
        0 => "0",
        1 => "1",
        2 => "2",
        3 => "3",
        4 => "4",
        5 => "5",
        6 => "6",
        7 => "7",
        8 => "8",
        _ => "9",
    };
    proof {
        reveal_strlit("0");
        reveal_strlit("1");
        reveal_strlit("2");
        reveal_strlit("3");
        reveal_strlit("4");
        reveal_strlit("5");
        reveal_strlit("6");
        reveal_strlit("7");
        reveal_strlit("8");
        reveal_strlit("9");
    }
    assert(r@ =~= seq![digit(d as nat)]);
    r
}

/// Appends the decimal rendering of `n` to `s`.
fn push_decimal(s: &mut String, n: u32)
    ensures
        final(s)@ == old(s)@ + decimal(n as nat),
    decreases n,
{
    if n >= 10 {
        push_decimal(s, n / 10);
    }
    s.append(digit_str(n % 10));
    proof {
        if n >= 10 {
            assert(decimal(n as nat) == decimal((n / 10) as nat).push(digit((n % 10) as nat)));
        }
        assert(s@ =~= old(s)@ + decimal(n as nat));
    }
}

/// Renders a duration given in microseconds, truncating to the unit shown.
pub fn microseconds_to_human(us: u32) -> (r: String)
    ensures
        r@ == human_duration(us as nat),
{
    if us == 0 {
        return String::from_str("0");
    }
    let mut r = String::new();
    if us < 1000 {
        push_decimal(&mut r, us);
        r.append("µs");
    } else if us < 1_000_000 {
        push_decimal(&mut r, us / 1000);
        r.append("ms");
    } else {
        push_decimal(&mut r, us / 1_000_000);
        r.append("s");
    }
    assert(r@ =~= human_duration(us as nat));
    r
}

} // verus!
