use vstd::prelude::*;
use vstd::string::StrSliceExecFns;

verus! {

/// Address every process binds to and dials.
pub const HOST: &'static str = "0.0.0.0";

/// Driver `i` listens on `MIN_DRIVER_PORT + i`.
pub const MIN_DRIVER_PORT: u32 = 8080;

pub const MAX_DRIVER_PORT: u32 = 8100;

/// Passenger `i` listens on `MIN_PASSENGER_PORT + i`.
pub const MIN_PASSENGER_PORT: u32 = 8000;

pub const MAX_PASSENGER_PORT: u32 = 8020;

pub const PAYMENT_PORT: u32 = 3000;

/// Why a port or a driver id does not name a driver.
#[derive(Debug, Clone, Copy, PartialEq, Eq, Structural)]
pub enum AddressError {
    /// The port lies outside `MIN_DRIVER_PORT..=MAX_DRIVER_PORT`.
    WrongPort { port: u32 },
    /// The id is too large for any driver port.
    WrongId { id: u32 },
    /// The text is not a decimal `u32`.
    NotANumber,
}

pub open spec fn is_ascii_digit(c: char) -> bool {
    ('0' as u32) <= (c as u32) <= ('9' as u32)
}

/// Value of a string of decimal digits.
pub open spec fn digits_value(s: Seq<char>) -> int
    decreases s.len(),
{
    if s.len() == 0 {
        0
    } else {
        digits_value(s.drop_last()) * 10 + ((s.last() as u32) - ('0' as u32))
    }
}

/// What `u32`'s `FromStr` accepts: an optional `+`, then one or more ASCII
/// digits whose value fits in a `u32`.
/// The text after an optional leading `+`.
pub open spec fn unsigned_digits(s: Seq<char>) -> Seq<char> {
    if s.len() > 0 && s[0] == '+' {
        s.drop_first()
    } else {
        s
    }
}

pub open spec fn u32_from_text(s: Seq<char>) -> Option<u32> {
    let d = unsigned_digits(s);
    if d.len() > 0 && (forall|i: int| 0 <= i < d.len() ==> is_ascii_digit(#[trigger] d[i]))
        && digits_value(d) <= u32::MAX {
        Some(digits_value(d) as u32)
    } else {
        None
    }
}

pub open spec fn digit_char(d: nat) -> char {
    seq!['0', '1', '2', '3', '4', '5', '6', '7', '8', '9'][d as int]
}

/// Decimal text of `n`, without leading zeros.
pub open spec fn decimal_text(n: nat) -> Seq<char>
    decreases n,
{
    if n < 10 {
        seq![digit_char(n)]
    } else {
        decimal_text(n / 10).push(digit_char(n % 10))
    }
}

/// `host:port`.
pub open spec fn address_text(host: Seq<char>, port: u32) -> Seq<char> {
    host + seq![':'] + decimal_text(port as nat)
}

proof fn lemma_digits_nonneg(s: Seq<char>)
    requires
        forall|k: int| 0 <= k < s.len() ==> is_ascii_digit(#[trigger] s[k]),
    ensures
        0 <= digits_value(s),
    decreases s.len(),
{
    if s.len() > 0 {
        lemma_digits_nonneg(s.drop_last());
        assert(is_ascii_digit(s[s.len() - 1]));
    }
}

proof fn lemma_digits_monotone(d: Seq<char>, i: int, j: int)
    requires
        0 <= i <= j <= d.len(),
        forall|k: int| 0 <= k < d.len() ==> is_ascii_digit(#[trigger] d[k]),
    ensures
        0 <= digits_value(d.take(i)) <= digits_value(d.take(j)),
    decreases j - i,
{
    if i < j {
        lemma_digits_monotone(d, i, j - 1);
        assert(d.take(j).drop_last() =~= d.take(j - 1));
        assert(d.take(j).last() == d[j - 1]);
        assert(is_ascii_digit(d[j - 1]));
    } else {
        lemma_digits_nonneg(d.take(i));
    }
}

/// Reads a `u32` written in decimal, with an optional leading `+`, as
/// `u32`'s `FromStr` does.
pub(crate) fn parse_u32(s: &str) -> (r: Option<u32>)
    ensures
        r == u32_from_text(s@),
{
    let n = s.unicode_len();
    let mut start: usize = 0;
    if n > 0 && s.get_char(0) == '+' {
        start = 1;
    }
    let ghost d = unsigned_digits(s@);
    proof {
        assert(d =~= s@.subrange(start as int, n as int));
    }
    if start >= n {
        return None;
    }
    let mut value: u32 = 0;
    let mut i: usize = start;
    while i < n
        invariant
            n == s@.len(),
            d =~= s@.subrange(start as int, n as int),
            d == unsigned_digits(s@),
            start <= i <= n,
            forall|k: int| 0 <= k < i - start ==> is_ascii_digit(#[trigger] d[k]),
            value as int == digits_value(d.take(i - start)),
        decreases n - i,
    {
        let c = s.get_char(i);
        if !(('0' as u32) <= (c as u32) && (c as u32) <= ('9' as u32)) {
            proof {
                assert(d[i - start] == c);
                assert(!is_ascii_digit(d[i - start]));
                assert(!(forall|k: int| 0 <= k < d.len() ==> is_ascii_digit(#[trigger] d[k])));
                assert(u32_from_text(s@).is_none());
            }
            return None;
        }
        let digit: u32 = (c as u32) - ('0' as u32);
        proof {
            assert(d[i - start] == c);
            assert(d.take(i - start + 1).drop_last() =~= d.take(i - start));
            assert(d.take(i - start + 1).last() == c);
        }
        if value > (u32::MAX - digit) / 10 {
            proof {
                assert(digits_value(d.take(i - start + 1)) == value * 10 + digit);
                assert(value * 10 + digit > u32::MAX) by (nonlinear_arith)
                    requires
                        value > (u32::MAX - digit) / 10,
                        digit <= 9,
                ;
                if forall|k: int| 0 <= k < d.len() ==> is_ascii_digit(#[trigger] d[k]) {
                    lemma_digits_monotone(d, i - start + 1, d.len() as int);
                    assert(d.take(d.len() as int) =~= d);
                    assert(digits_value(d) > u32::MAX);
                }
                assert(u32_from_text(s@).is_none());
            }
            return None;
        }
        proof {
            assert(value * 10 + digit <= u32::MAX) by (nonlinear_arith)
                requires
                    value <= (u32::MAX - digit) / 10,
                    digit <= 9,
            ;
        }
        value = value * 10 + digit;
        i += 1;
    }
    proof {
        assert(d.take(d.len() as int) =~= d);
    }
    Some(value)
}

/// Relies on `format!` with u32's `Display`: the host, a colon and the
/// port in decimal.
#[verifier::external_body]
fn socket_address(host: &str, port: u32) -> (r: String)
    ensures
        r@ == address_text(host@, port),
{
    format!("{}:{}", host, port)
}

/// Whether `port` is a driver's port.
pub open spec fn is_driver_port(port: u32) -> bool {
    MIN_DRIVER_PORT <= port <= MAX_DRIVER_PORT
}

/// The address of the driver listening on `port`.
pub fn get_driver_address(port: u32) -> (r: Result<String, AddressError>)
    ensures
        is_driver_port(port) ==> r.is_ok() && r.unwrap()@ == address_text(HOST@, port),
        !is_driver_port(port) ==> r == Err::<String, AddressError>(AddressError::WrongPort { port }),
{
    if port < MIN_DRIVER_PORT || port > MAX_DRIVER_PORT {
        return Err(AddressError::WrongPort { port });
    }
    Ok(socket_address(HOST, port))
}

/// The address of driver `id`.
pub fn get_driver_address_by_id(id: u32) -> (r: Result<String, AddressError>)
    ensures
        id <= MAX_DRIVER_PORT - MIN_DRIVER_PORT ==> r.is_ok() && r.unwrap()@ == address_text(
            HOST@,
            (MIN_DRIVER_PORT + id) as u32,
        ),
        id > MAX_DRIVER_PORT - MIN_DRIVER_PORT ==> r == Err::<String, AddressError>(
            AddressError::WrongId { id },
        ),
{
    if id > MAX_DRIVER_PORT - MIN_DRIVER_PORT {
        return Err(AddressError::WrongId { id });
    }
    get_driver_address(MIN_DRIVER_PORT + id)
}

/// The id of the driver listening on `port`.
pub fn id_for_port(port: u32) -> (r: Result<u32, AddressError>)
    ensures
        is_driver_port(port) ==> r == Ok::<u32, AddressError>((port - MIN_DRIVER_PORT) as u32),
        !is_driver_port(port) ==> r == Err::<u32, AddressError>(AddressError::WrongPort { port }),
{
    if port < MIN_DRIVER_PORT || port > MAX_DRIVER_PORT {
        return Err(AddressError::WrongPort { port });
    }
    Ok(port - MIN_DRIVER_PORT)
}

/// The id of the driver whose port is written in `port`.
pub fn get_id_by_port(port: &str) -> (r: Result<u32, AddressError>)
    ensures
        u32_from_text(port@).is_none() ==> r == Err::<u32, AddressError>(AddressError::NotANumber),
        u32_from_text(port@).is_some() ==> r == (if is_driver_port(u32_from_text(port@).unwrap()) {
            Ok::<u32, AddressError>((u32_from_text(port@).unwrap() - MIN_DRIVER_PORT) as u32)
        } else {
            Err::<u32, AddressError>(AddressError::WrongPort { port: u32_from_text(port@).unwrap() })
        }),
{
    match parse_u32(port) {
        None => Err(AddressError::NotANumber),
        Some(p) => id_for_port(p),
    }
}

/// Every driver port, in increasing order.
pub fn all_driver_ports() -> (r: Vec<u32>)
    ensures
        r@.len() == MAX_DRIVER_PORT - MIN_DRIVER_PORT + 1,
        forall|i: int| 0 <= i < r@.len() ==> r@[i] == MIN_DRIVER_PORT + i,
{
    let mut r: Vec<u32> = Vec::new();
    let mut p: u32 = MIN_DRIVER_PORT;
    while p <= MAX_DRIVER_PORT
        invariant
            MIN_DRIVER_PORT <= p <= MAX_DRIVER_PORT + 1,
            r@.len() == p - MIN_DRIVER_PORT,
            forall|i: int| 0 <= i < r@.len() ==> r@[i] == MIN_DRIVER_PORT + i,
        decreases MAX_DRIVER_PORT + 1 - p,
    {
        r.push(p);
        p += 1;
    }
    r
}

/// The port passenger `id` listens on, when it is a passenger port.
pub fn passenger_port(id: u32) -> (r: Option<u32>)
    ensures
        id <= MAX_PASSENGER_PORT - MIN_PASSENGER_PORT ==> r == Some((MIN_PASSENGER_PORT + id) as u32),
        id > MAX_PASSENGER_PORT - MIN_PASSENGER_PORT ==> r.is_none(),
{
    if id > MAX_PASSENGER_PORT - MIN_PASSENGER_PORT {
        None
    } else {
        Some(MIN_PASSENGER_PORT + id)
    }
}

} // verus!
