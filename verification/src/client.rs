//! The echo client: what a client sends, how it follows the server's
//! replies, and when each client of a run starts.

use vstd::prelude::*;
use rand::Rng;
use rand::SeedableRng;
use rand::rngs::StdRng;
use crate::io_error::IoErrorKind;

verus! {

/// The number of clients that a run starts.
pub const CLIENT_COUNT: usize = 10;

/// The longest that a client waits, in seconds, before it connects when a
/// run spreads its clients out at random.
pub const MAX_START_DELAY_SECS: u64 = 10;

/// The number of bytes that a client reads at most at a time.
pub const REPLY_BUFFER_SIZE: usize = 128;

/// The ASCII digit of `d`, for `d` below ten.
pub open spec fn digit(d: nat) -> u8 {
    (d + 48) as u8
}

/// The decimal notation of `n` in ASCII digits, without leading zeros.
pub open spec fn decimal(n: nat) -> Seq<u8>
    decreases n,
{
    if n < 10 {
        seq![digit(n)]
    } else {
        decimal(n / 10).push(digit(n % 10))
    }
}

/// The ASCII text `hello world ` that starts every greeting.
pub open spec fn greeting_prefix() -> Seq<u8> {
    "hello world "@.map_values(|c: char| c as u8)
}

/// The message that the client with index `index` sends:
/// `hello world <index>`.
pub open spec fn greeting_bytes(index: nat) -> Seq<u8> {
    greeting_prefix() + decimal(index)
}

/// Appends the decimal notation of `n` to `out`.
fn push_decimal(out: &mut Vec<u8>, n: usize)
    ensures
        final(out)@ == old(out)@ + decimal(n as nat),
    decreases n,
{
    if n >= 10 {
        push_decimal(out, n / 10);
    }
    let d: usize = n % 10;
    assert(d < 10);
    out.push((d as u8) + 48);
    proof {
        assert(decimal(n as nat) == if n < 10 {
            seq![digit(n as nat)]
        } else {
            decimal((n / 10) as nat).push(digit((n % 10) as nat))
        });
    }
}

/// The bytes that the client with index `index` writes to the server:
/// `hello world ` followed by the index in decimal.
pub fn greeting(index: usize) -> (message: Vec<u8>)
    ensures
        message@ == greeting_bytes(index as nat),
{
    // The ASCII codes of `hello world `.
    let mut message: Vec<u8> = vec![104, 101, 108, 108, 111, 32, 119, 111, 114, 108, 100, 32];
    proof {
        reveal_strlit("hello world ");
        assert(message@ =~= greeting_prefix());
    }
    push_decimal(&mut message, index);
    message
}

/// What a client's wait for a reply gave.
#[derive(Debug, Clone, Copy, PartialEq, Eq)]
pub enum ReplyOutcome {
    /// This many bytes arrived; none when the server closed the connection.
    Read(usize),
    /// The read failed.
    Failed(IoErrorKind),
    /// Nothing arrived in time.
    TimedOut,
}

/// Whether a client that waits for replies goes on reading after `outcome`.
pub open spec fn keeps_reading(outcome: ReplyOutcome) -> bool {
    outcome matches ReplyOutcome::Read(n) && n > 0
}

/// Decides whether a client goes on reading replies: it does after bytes
/// arrived, and stops when the server closed the connection, when the read
/// failed, or when nothing arrived in time.
pub fn continue_after_reply(outcome: ReplyOutcome) -> (more: bool)
    ensures
        more == keeps_reading(outcome),
{
    match outcome {
        ReplyOutcome::Read(n) => n > 0,
        ReplyOutcome::Failed(_) => false,
        ReplyOutcome::TimedOut => false,
    }
}

/// A client waiting for replies reads again after any number of bytes from
/// one up to a full buffer arrived, and stops when the server closed the
/// connection (no bytes), when the read failed, whatever its kind, and when
/// nothing arrived in time.
pub proof fn lemma_reply_loop(n: usize, kind: IoErrorKind)
    ensures
        0 < n ==> keeps_reading(ReplyOutcome::Read(n)),
        0 < n <= REPLY_BUFFER_SIZE ==> keeps_reading(ReplyOutcome::Read(n)),
        !keeps_reading(ReplyOutcome::Read(0)),
        !keeps_reading(ReplyOutcome::Failed(kind)),
        !keeps_reading(ReplyOutcome::TimedOut),
{
}

/// Whether `s` consists of ASCII decimal digits only.
pub open spec fn all_digits(s: Seq<u8>) -> bool {
    forall|i: int| 0 <= i < s.len() ==> 48 <= #[trigger] s[i] <= 57
}

/// The number that the ASCII decimal digits `s` denote, most significant
/// first.
pub open spec fn digits_value(s: Seq<u8>) -> nat
    decreases s.len(),
{
    if s.len() == 0 {
        0
    } else {
        digits_value(s.drop_last()) * 10 + (s.last() - 48) as nat
    }
}

/// The decimal notation of `n` is a non-empty run of ASCII digits, without a
/// leading zero unless it is `0` itself, that reads back as `n`.
pub proof fn lemma_decimal_reads_back(n: nat)
    ensures
        decimal(n).len() > 0,
        all_digits(decimal(n)),
        digits_value(decimal(n)) == n,
        decimal(n).len() > 1 ==> decimal(n)[0] != 48,
    decreases n,
{
    if n < 10 {
        assert(digit(n) == n + 48);
        assert(decimal(n) == seq![digit(n)]);
        assert(decimal(n).drop_last() =~= Seq::<u8>::empty());
        assert(digits_value(decimal(n).drop_last()) == 0);
    } else {
        lemma_decimal_reads_back(n / 10);
        let d = decimal(n / 10);
        let last = digit(n % 10);
        assert(n % 10 < 10);
        assert(last == n % 10 + 48);
        assert(decimal(n) == d.push(last));
        assert(decimal(n).drop_last() =~= d);
        assert(decimal(n).last() == last);
        assert(decimal(n)[0] == d[0]);
        assert((n / 10) * 10 + n % 10 == n);
        assert(digits_value(decimal(n)) == digits_value(d) * 10 + (last - 48) as nat);
        if d.len() == 1 {
            assert(n / 10 < 10) by {
                if n / 10 >= 10 {
                    assert(decimal(n / 10) == decimal(n / 10 / 10).push(digit(n / 10 % 10)));
                    lemma_decimal_reads_back(n / 10 / 10);
                }
            }
            assert(d[0] == digit(n / 10));
            assert(n / 10 >= 1);
        }
    }
}

/// The greeting of client `index` is the text `hello world ` followed by a
/// run of ASCII digits that reads back as `index`, with no leading zero.
pub proof fn lemma_greeting_names_index(index: nat)
    ensures
        greeting_bytes(index).len() > 12,
        greeting_bytes(index).take(12) =~= seq![104u8, 101, 108, 108, 111, 32, 119, 111, 114, 108, 100, 32],
        all_digits(greeting_bytes(index).skip(12)),
        digits_value(greeting_bytes(index).skip(12)) == index,
        greeting_bytes(index).len() > 13 ==> greeting_bytes(index)[12] != 48,
{
    reveal_strlit("hello world ");
    lemma_decimal_reads_back(index);
    assert(greeting_prefix().len() == 12);
    assert(greeting_bytes(index).skip(12) =~= decimal(index));
    assert(greeting_bytes(index).take(12) =~= greeting_prefix());
}

#[verifier::external_type_specification]
#[verifier::external_body]
pub struct ExStdRng(StdRng);

/// Calls `rand::SeedableRng::try_from_os_rng` for `StdRng`, which seeds a
/// generator from the operating system's entropy source and returns the
/// source's error, rather than panicking, when it cannot. The error is
/// dropped here (`None`); whether seeding succeeds depends on the machine,
/// so nothing is stated of which outcome comes.
#[verifier::external_body]
fn seeded_from_os() -> (rng: Option<StdRng>) {
    StdRng::try_from_os_rng().ok()
}

/// Calls `rand::Rng::random_range` on the inclusive range `low..=high`, whose
/// documentation promises a value of that range; the range is not empty, so
/// the call does not panic, and `StdRng` never reseeds, so drawing from it
/// does not fail. Which value comes is left to chance.
#[verifier::external_body]
fn random_inclusive(rng: &mut StdRng, low: u64, high: u64) -> (value: u64)
    requires
        low <= high,
    ensures
        low <= value <= high,
{
    rng.random_range(low..=high)
}

/// Draws from `rng`, for each of `count` clients, how many seconds it waits
/// before it connects: a random whole number from 0 to
/// [`MAX_START_DELAY_SECS`]. The delay of client `i` stands at position `i`.
pub fn draw_delays(rng: &mut StdRng, count: usize) -> (delays: Vec<u64>)
    ensures
        delays@.len() == count,
        forall|i: int| 0 <= i < count ==> #[trigger] delays@[i] <= MAX_START_DELAY_SECS,
{
    let mut delays: Vec<u64> = Vec::new();
    let mut i: usize = 0;
    while i < count
        invariant
            i <= count,
            delays@.len() == i,
            forall|j: int| 0 <= j < i ==> #[trigger] delays@[j] <= MAX_START_DELAY_SECS,
        decreases count - i,
    {
        let delay = random_inclusive(rng, 0, MAX_START_DELAY_SECS);
        delays.push(delay);
        i = i + 1;
    }
    delays
}

/// The start delays of `count` clients, drawn from a generator that the
/// operating system's entropy source seeds (see [`draw_delays`]); `None`
/// when that source cannot seed one. Whatever the outcome, a returned list
/// holds one delay per client, each at most [`MAX_START_DELAY_SECS`].
pub fn start_delays(count: usize) -> (delays: Option<Vec<u64>>)
    ensures
        delays matches Some(d) ==> d@.len() == count && forall|i: int|
            0 <= i < count ==> #[trigger] d@[i] <= MAX_START_DELAY_SECS,
{
    match seeded_from_os() {
        Some(mut rng) => Some(draw_delays(&mut rng, count)),
        None => None,
    }
}

} // verus!
