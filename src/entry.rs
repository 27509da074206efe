use vstd::prelude::*;

use crate::error::DehashedError;

verus! {

/// An IP address, as its octets (version 4) or its 16-bit segments (version 6).
#[derive(Clone, Copy, Debug, PartialEq, Eq)]
pub enum IpAddress {
    V4([u8; 4]),
    V6([u16; 8]),
}

/// One record as the provider sends it: every field is text, empty where absent.
#[derive(Debug)]
pub struct Entry {
    pub id: String,
    pub email: String,
    pub username: String,
    pub password: String,
    pub hashed_password: String,
    pub ip_address: String,
    /// The address that `ip_address` spells, as the platform's address parser reads it;
    /// `None` where the parser refuses the text. Filled in by whoever decodes the record.
    pub ip_address_value: Option<IpAddress>,
    pub name: String,
    pub vin: String,
    pub address: String,
    pub phone: String,
    pub database_name: String,
}

/// One page of results as the provider sends it.
#[derive(Debug)]
pub struct Response {
    pub balance: usize,
    pub entries: Option<Vec<Entry>>,
    pub success: bool,
    pub took: String,
    pub total: usize,
}

/// The result of a search query.
#[derive(Debug)]
pub struct SearchResult {
    /// The entries of all pages, in the order the provider sent them
    pub entries: Vec<SearchEntry>,
    /// The remaining balance, as reported with the last page
    pub balance: usize,
}

/// A single entry in a [SearchResult].
#[derive(Debug)]
pub struct SearchEntry {
    /// ID of the entry
    pub id: u64,
    /// An email address, may be [None] if the result didn't include this field
    pub email: Option<String>,
    /// An username, may be [None] if the result didn't include this field
    pub username: Option<String>,
    /// A password, may be [None] if the result didn't include this field
    pub password: Option<String>,
    /// An hashed password, may be [None] if the result didn't include this field
    pub hashed_password: Option<String>,
    /// An ip address, may be [None] if the result didn't include this field
    pub ip_address: Option<IpAddress>,
    /// A name, may be [None] if the result didn't include this field
    pub name: Option<String>,
    /// A vin, may be [None] if the result didn't include this field
    pub vin: Option<String>,
    /// An address, may be [None] if the result didn't include this field
    pub address: Option<String>,
    /// A phone, may be [None] if the result didn't include this field
    pub phone: Option<String>,
    /// A database name, may be [None] if the result didn't include this field
    pub database_name: Option<String>,
}

pub open spec fn is_digit(c: char) -> bool {
    '0' <= c && c <= '9'
}

/// The text of an unsigned decimal number without its optional leading `+`.
pub open spec fn unsigned_digits(s: Seq<char>) -> Seq<char> {
    if s.len() > 0 && s[0] == '+' {
        s.drop_first()
    } else {
        s
    }
}

/// The value of a sequence of decimal digits.
pub open spec fn digits_value(d: Seq<char>) -> nat
    decreases d.len(),
{
    if d.len() == 0 {
        0
    } else {
        digits_value(d.drop_last()) * 10 + ((d.last() as u32) - ('0' as u32)) as nat
    }
}

/// Whether `s` is an optional `+` followed by one or more decimal digits whose value fits
/// in 64 bits.
pub open spec fn valid_id(s: Seq<char>) -> bool {
    let d = unsigned_digits(s);
    &&& d.len() > 0
    &&& forall|i: int| 0 <= i < d.len() ==> is_digit(#[trigger] d[i])
    &&& digits_value(d) <= u64::MAX
}

pub open spec fn id_value(s: Seq<char>) -> nat {
    digits_value(unsigned_digits(s))
}

/// Relies on `u64`'s `FromStr`, reached through `str::parse`: it accepts exactly an
/// optional `+` followed by decimal digits whose value fits, and returns that value.
#[verifier::external_body]
fn parse_id(s: &str) -> (r: Result<u64, std::num::ParseIntError>)
    ensures
        r is Ok <==> valid_id(s@),
        r matches Ok(v) ==> v as nat == id_value(s@),
{
    s.parse::<u64>()
}

/// An empty wire field means that the value is absent.
pub open spec fn text_field(s: String) -> Option<String> {
    if s@.len() == 0 {
        None
    } else {
        Some(s)
    }
}

fn text_field_of(s: String) -> (r: Option<String>)
    ensures
        r == text_field(s),
{
    if s.as_str().is_empty() {
        None
    } else {
        Some(s)
    }
}

pub open spec fn address_field(e: Entry) -> Option<IpAddress> {
    if e.ip_address@.len() == 0 {
        None
    } else {
        e.ip_address_value
    }
}

/// Whether a wire record can be normalised: its id is a number and a non-empty address
/// is an IP address.
pub open spec fn normalizes(e: Entry) -> bool {
    valid_id(e.id@) && (e.ip_address@.len() > 0 ==> e.ip_address_value is Some)
}

/// The typed record a wire record normalises to.
pub open spec fn normalized(e: Entry) -> SearchEntry {
    SearchEntry {
        id: id_value(e.id@) as u64,
        email: text_field(e.email),
        username: text_field(e.username),
        password: text_field(e.password),
        hashed_password: text_field(e.hashed_password),
        ip_address: address_field(e),
        name: text_field(e.name),
        vin: text_field(e.vin),
        address: text_field(e.address),
        phone: text_field(e.phone),
        database_name: text_field(e.database_name),
    }
}

/// The error a record that does not normalise gives: a bad id first, then a bad address.
pub open spec fn entry_error(e: Entry, err: DehashedError) -> bool {
    if !valid_id(e.id@) {
        err is ParseIntError
    } else {
        err == DehashedError::ParseAddrError(e.ip_address)
    }
}

impl SearchEntry {
    /// Normalises a wire record: empty fields become `None`, the id is parsed as a number
    /// and a non-empty address must be an IP address.
    pub fn try_from(value: Entry) -> (r: Result<SearchEntry, DehashedError>)
        ensures
            r is Ok <==> normalizes(value),
            r matches Ok(se) ==> se == normalized(value),
            r matches Err(err) ==> entry_error(value, err),
    {
        let id = match parse_id(value.id.as_str()) {
            Ok(v) => v,
            Err(e) => {
                return Err(DehashedError::ParseIntError(e));
            },
        };
        let ip_address = if value.ip_address.as_str().is_empty() {
            None
        } else {
            match value.ip_address_value {
                Some(a) => Some(a),
                None => {
                    return Err(DehashedError::ParseAddrError(value.ip_address));
                },
            }
        };
        Ok(SearchEntry {
            id,
            email: text_field_of(value.email),
            username: text_field_of(value.username),
            password: text_field_of(value.password),
            hashed_password: text_field_of(value.hashed_password),
            ip_address,
            name: text_field_of(value.name),
            vin: text_field_of(value.vin),
            address: text_field_of(value.address),
            phone: text_field_of(value.phone),
            database_name: text_field_of(value.database_name),
        })
    }
}

} // verus!
