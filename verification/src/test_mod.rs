//! A UART test for the nRF52 development kit: it fills a buffer with the
//! printable ASCII characters from `!` to `}` over and over and transmits it.
use vstd::prelude::*;

verus! {

/// Size of the test buffer.
pub const BUFFER_SIZE_2048: usize = 2048;

/// The first character of the pattern, `!`.
pub const PATTERN_FIRST: u8 = 33;

/// The number of characters the pattern cycles through, `!` to `}`.
pub const PATTERN_PERIOD: usize = 93;

/// The byte of the pattern at position `i`.
pub open spec fn pattern_byte(i: int) -> u8 {
    (PATTERN_FIRST + i % (PATTERN_PERIOD as int)) as u8
}

/// Fills `buf` with the characters 33 to 125, cycling.
pub fn fill_test_pattern(buf: &mut Vec<u8>)
    ensures
        final(buf)@.len() == old(buf)@.len(),
        forall|i: int| 0 <= i < final(buf)@.len() ==> #[trigger] final(buf)@[i] == pattern_byte(i),
{
    let n = buf.len();
    let mut i: usize = 0;
    let mut c: u8 = PATTERN_FIRST;
    while i < n
        invariant
            n == buf@.len(),
            i <= n,
            c == pattern_byte(i as int),
            forall|j: int| 0 <= j < i ==> #[trigger] buf@[j] == pattern_byte(j),
        decreases n - i,
    {
        buf.set(i, c);
        proof {
            let k = i as int;
            if k % 93 == 92 {
                assert((k + 1) % 93 == 0) by (nonlinear_arith)
                    requires
                        k % 93 == 92,
                        k >= 0,
                ;
            } else {
                assert((k + 1) % 93 == k % 93 + 1) by (nonlinear_arith)
                    requires
                        k % 93 != 92,
                        k >= 0,
                ;
            }
        }
        if c == 125 {
            c = PATTERN_FIRST;
        } else {
            c = c + 1;
        }
        i = i + 1;
    }
}

/// A test buffer of `BUFFER_SIZE_2048` bytes filled with the pattern.
pub fn test_buffer() -> (r: Vec<u8>)
    ensures
        r@.len() == BUFFER_SIZE_2048,
        forall|i: int| 0 <= i < BUFFER_SIZE_2048 ==> #[trigger] r@[i] == pattern_byte(i),
{
    let mut buf: Vec<u8> = Vec::new();
    let mut i: usize = 0;
    while i < BUFFER_SIZE_2048
        invariant
            i <= BUFFER_SIZE_2048,
            buf@.len() == i,
        decreases BUFFER_SIZE_2048 - i,
    {
        buf.push(0);
        i = i + 1;
    }
    fill_test_pattern(&mut buf);
    buf
}


/// The pattern is made of the printable characters `!` to `}` and repeats
/// every 93 bytes.
pub proof fn law_pattern_printable_and_periodic(i: int)
    requires
        i >= 0,
    ensures
        33 <= pattern_byte(i) <= 125,
        pattern_byte(i + 93) == pattern_byte(i),
{
    assert((i + 93) % 93 == i % 93) by (nonlinear_arith)
        requires
            i >= 0,
    ;
}


/// The pattern starts at `!` and each byte is the next character after the
/// one before, except that `}` is followed by `!` again.
pub proof fn law_pattern_successor(i: int)
    requires
        i >= 0,
    ensures
        pattern_byte(0) == 33,
        pattern_byte(i) == 125 ==> pattern_byte(i + 1) == 33,
        pattern_byte(i) != 125 ==> pattern_byte(i + 1) == pattern_byte(i) + 1,
{
    if i % 93 == 92 {
        assert((i + 1) % 93 == 0) by (nonlinear_arith)
            requires
                i % 93 == 92,
                i >= 0,
        ;
    } else {
        assert((i + 1) % 93 == i % 93 + 1) by (nonlinear_arith)
            requires
                i % 93 != 92,
                i >= 0,
        ;
    }
}

} // verus!
