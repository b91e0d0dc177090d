use vstd::prelude::*;

verus! {

pub open spec fn is_digit(c: char) -> bool {
    '0' <= c && c <= '9'
}

pub open spec fn is_sign(c: char) -> bool {
    c == '+' || c == '-'
}

/// The index just past the run of decimal digits that starts at `i`.
pub open spec fn digit_run_end(s: Seq<char>, i: int) -> int
    decreases s.len() - i,
{
    if 0 <= i < s.len() && is_digit(s[i]) {
        digit_run_end(s, i + 1)
    } else {
        i
    }
}

/// One letter of a word read without regard to case.
pub open spec fn is_either(c: char, lower: char, upper: char) -> bool {
    c == lower || c == upper
}

/// From index `a` on, `s` is `inf`, `infinity` or `nan`, in any case.
pub open spec fn is_special_at(s: Seq<char>, a: int) -> bool {
    let n = s.len() - a;
    (n == 3 && is_either(s[a], 'i', 'I') && is_either(s[a + 1], 'n', 'N') && is_either(
        s[a + 2],
        'f',
        'F',
    )) || (n == 3 && is_either(s[a], 'n', 'N') && is_either(s[a + 1], 'a', 'A') && is_either(
        s[a + 2],
        'n',
        'N',
    )) || (n == 8 && is_either(s[a], 'i', 'I') && is_either(s[a + 1], 'n', 'N') && is_either(
        s[a + 2],
        'f',
        'F',
    ) && is_either(s[a + 3], 'i', 'I') && is_either(s[a + 4], 'n', 'N') && is_either(
        s[a + 5],
        'i',
        'I',
    ) && is_either(s[a + 6], 't', 'T') && is_either(s[a + 7], 'y', 'Y'))
}

/// From index `a` on, `s` is a decimal number: digits with an optional point
/// and digits after it (at least one digit in all), then optionally `e` or
/// `E`, an optional sign and one or more digits.
pub open spec fn is_decimal_at(s: Seq<char>, a: int) -> bool {
    let b = digit_run_end(s, a);
    let point = b < s.len() && s[b] == '.';
    let c = if point { digit_run_end(s, b + 1) } else { b };
    (b > a || (point && c > b + 1)) && (c == s.len() || ((s[c] == 'e' || s[c] == 'E') && {
        let d = if c + 1 < s.len() && is_sign(s[c + 1]) { c + 2 } else { c + 1 };
        digit_run_end(s, d) > d && digit_run_end(s, d) == s.len()
    }))
}

/// A coordinate as the inbound query may give it: any text that Rust reads as
/// a binary64 float. That is an optional sign, then either a decimal number
/// (`5`, `5.`, `.5`, `1.3e-2`) or one of `inf`, `infinity` and `nan` in any
/// case, which are taken as well.
pub open spec fn is_numeral(s: Seq<char>) -> bool {
    let a = if s.len() > 0 && is_sign(s[0]) { 1int } else { 0int };
    is_special_at(s, a) || is_decimal_at(s, a)
}

/// Why an inbound query was refused.
#[derive(Clone, Copy, Debug, PartialEq, Eq, Structural)]
pub enum QueryError {
    MissingLatitude,
    InvalidLatitude,
    MissingLongitude,
    InvalidLongitude,
}

/// The first fault of a query, latitude before longitude, or `None` if both
/// parameters are present and numeric.
pub open spec fn query_error(lat: Option<Seq<char>>, lon: Option<Seq<char>>) -> Option<QueryError> {
    match lat {
        None => Some(QueryError::MissingLatitude),
        Some(a) => if !is_numeral(a) {
            Some(QueryError::InvalidLatitude)
        } else {
            match lon {
                None => Some(QueryError::MissingLongitude),
                Some(b) => if !is_numeral(b) {
                    Some(QueryError::InvalidLongitude)
                } else {
                    None
                },
            }
        },
    }
}

pub open spec fn opt_view(o: Option<String>) -> Option<Seq<char>> {
    match o {
        None => None,
        Some(s) => Some(s@),
    }
}

/// The raw `lat` and `lon` parameters of an inbound query, as they arrived.
#[derive(Clone, Debug)]
pub struct WeatherQuery {
    pub lat: Option<String>,
    pub lon: Option<String>,
}

/// A validated coordinate pair, kept as the decimal text it was given in.
#[derive(Clone, Debug)]
pub struct Coordinate {
    pub latitude: String,
    pub longitude: String,
}

impl Coordinate {
    pub open spec fn wf(&self) -> bool {
        is_numeral(self.latitude@) && is_numeral(self.longitude@)
    }
}

fn is_digit_char(c: char) -> (r: bool)
    ensures
        r == is_digit(c),
{
    '0' <= c && c <= '9'
}

/// The end of the digit run starting at `start`.
fn scan_digits(s: &str, len: usize, start: usize) -> (r: usize)
    requires
        len == s@.len(),
        start <= len,
    ensures
        r as int == digit_run_end(s@, start as int),
        start <= r <= len,
{
    let mut j: usize = start;
    while j < len && is_digit_char(s.get_char(j))
        invariant
            len == s@.len(),
            start <= j <= len,
            digit_run_end(s@, start as int) == digit_run_end(s@, j as int),
        decreases len - j,
    {
        j = j + 1;
    }
    j
}

fn is_either_char(c: char, lower: char, upper: char) -> (r: bool)
    ensures
        r == is_either(c, lower, upper),
{
    c == lower || c == upper
}

fn check_special(s: &str, len: usize, a: usize) -> (r: bool)
    requires
        len == s@.len(),
        a <= len,
    ensures
        r == is_special_at(s@, a as int),
{
    let n = len - a;
    if n == 3 {
        let c0 = s.get_char(a);
        let c1 = s.get_char(a + 1);
        let c2 = s.get_char(a + 2);
        (is_either_char(c0, 'i', 'I') && is_either_char(c1, 'n', 'N') && is_either_char(
            c2,
            'f',
            'F',
        )) || (is_either_char(c0, 'n', 'N') && is_either_char(c1, 'a', 'A') && is_either_char(
            c2,
            'n',
            'N',
        ))
    } else if n == 8 {
        is_either_char(s.get_char(a), 'i', 'I') && is_either_char(s.get_char(a + 1), 'n', 'N')
            && is_either_char(s.get_char(a + 2), 'f', 'F') && is_either_char(
            s.get_char(a + 3),
            'i',
            'I',
        ) && is_either_char(s.get_char(a + 4), 'n', 'N') && is_either_char(
            s.get_char(a + 5),
            'i',
            'I',
        ) && is_either_char(s.get_char(a + 6), 't', 'T') && is_either_char(
            s.get_char(a + 7),
            'y',
            'Y',
        )
    } else {
        false
    }
}

/// Whether `s` is a coordinate numeral.
pub fn check_numeral(s: &str) -> (r: bool)
    ensures
        r == is_numeral(s@),
{
    let len = s.unicode_len();
    let a: usize = if len > 0 && (s.get_char(0) == '+' || s.get_char(0) == '-') {
        1
    } else {
        0
    };
    if check_special(s, len, a) {
        return true;
    }
    let b = scan_digits(s, len, a);
    let point = b < len && s.get_char(b) == '.';
    let c = if point {
        scan_digits(s, len, b + 1)
    } else {
        b
    };
    if !(b > a || (point && c > b + 1)) {
        return false;
    }
    if c == len {
        return true;
    }
    let e = s.get_char(c);
    if e != 'e' && e != 'E' {
        return false;
    }
    let d: usize = if c + 1 < len && (s.get_char(c + 1) == '+' || s.get_char(c + 1) == '-') {
        c + 2
    } else {
        c + 1
    };
    let f = scan_digits(s, len, d);
    f > d && f == len
}

impl WeatherQuery {
    /// Validates the two parameters: each must be present and a numeral.
    pub fn coordinate(&self) -> (r: Result<Coordinate, QueryError>)
        ensures
            r is Err <==> query_error(opt_view(self.lat), opt_view(self.lon)) is Some,
            r is Err ==> Some(r->Err_0) == query_error(opt_view(self.lat), opt_view(self.lon)),
            r is Ok ==> r->Ok_0.wf() && r->Ok_0.latitude@ == self.lat->Some_0@
                && r->Ok_0.longitude@ == self.lon->Some_0@,
    {
        let lat = match &self.lat {
            None => return Err(QueryError::MissingLatitude),
            Some(l) => l,
        };
        if !check_numeral(lat.as_str()) {
            return Err(QueryError::InvalidLatitude);
        }
        let lon = match &self.lon {
            None => return Err(QueryError::MissingLongitude),
            Some(l) => l,
        };
        if !check_numeral(lon.as_str()) {
            return Err(QueryError::InvalidLongitude);
        }
        Ok(Coordinate { latitude: lat.clone(), longitude: lon.clone() })
    }
}

} // verus!
