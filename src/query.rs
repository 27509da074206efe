use vstd::prelude::*;
use vstd::string::StringExecFns;

verus! {

/// Whether `c` belongs to the provider's reserved characters, which must be escaped
/// with a backslash inside literal text.
pub open spec fn reserved(c: char) -> bool {
    c == '+' || c == '-' || c == '=' || c == '&' || c == '|' || c == '>' || c == '<' || c == '!'
        || c == '(' || c == ')' || c == '{' || c == '}' || c == '[' || c == ']' || c == '^'
        || c == '"' || c == '~' || c == '*' || c == '?' || c == ':' || c == '\\'
}

/// The text one character of a literal becomes.
pub open spec fn escaped_char(c: char) -> Seq<char> {
    if reserved(c) {
        seq!['\\', c]
    } else {
        seq![c]
    }
}

/// Literal text with every reserved character prefixed by a backslash.
pub open spec fn escaped(s: Seq<char>) -> Seq<char>
    decreases s.len(),
{
    if s.len() == 0 {
        Seq::empty()
    } else {
        escaped(s.drop_last()) + escaped_char(s.last())
    }
}

/// Escaping goes character by character: a lone reserved character gets a backslash in
/// front of it, any other character stays as it is, and the escaped text of a concatenation
/// is the concatenation of the escaped texts.
pub proof fn escape_by_character(a: Seq<char>, b: Seq<char>, c: char)
    ensures
        escaped(seq![c]) == (if reserved(c) {
            seq!['\\', c]
        } else {
            seq![c]
        }),
        escaped(a + b) == escaped(a) + escaped(b),
    decreases b.len(),
{
    let one = seq![c];
    assert(one.drop_last() =~= Seq::<char>::empty());
    assert(one.last() == c);
    assert(escaped(one.drop_last()) == Seq::<char>::empty());
    assert(escaped(one) =~= escaped_char(c));
    if b.len() == 0 {
        assert(a + b =~= a);
        assert(escaped(a) + escaped(b) =~= escaped(a));
    } else {
        escape_by_character(a, b.drop_last(), c);
        assert((a + b).drop_last() =~= a + b.drop_last());
        assert((a + b).last() == b.last());
        assert(escaped(a + b) =~= escaped(a) + escaped(b));
    }
}

pub open spec fn or_separator() -> Seq<char> {
    seq![' ', 'O', 'R', ' ']
}

pub open spec fn and_separator() -> Seq<char> {
    seq![' ']
}

/// The provider's query syntax for a match expression.
pub open spec fn render_type(t: SearchType) -> Seq<char>
    decreases t, 1nat,
{
    match t {
        SearchType::Simple(x) => escaped(x@),
        SearchType::Exact(x) => seq!['"'] + escaped(x@) + seq!['"'],
        SearchType::Regex(x) => seq!['/'] + escaped(x@) + seq!['/'],
        SearchType::Or(v) => render_joined(v@, or_separator()),
        SearchType::And(v) => render_joined(v@, and_separator()),
    }
}

/// The rendered items, with `sep` between each two neighbours.
pub open spec fn render_joined(items: Seq<SearchType>, sep: Seq<char>) -> Seq<char>
    decreases items, 0nat,
{
    if items.len() == 0 {
        Seq::empty()
    } else if items.len() == 1 {
        render_type(items[0])
    } else {
        render_joined(items.drop_last(), sep) + sep + render_type(items.last())
    }
}

/// A match expression over one field.
#[derive(Debug)]
pub enum SearchType {
    /// Search for a simple pattern
    Simple(String),
    /// Search for an exact pattern
    Exact(String),
    /// A regex search pattern
    Regex(String),
    /// Any of the given expressions
    Or(Vec<SearchType>),
    /// All of the given expressions
    And(Vec<SearchType>),
}

/// Relies on String::push: the character is appended at the end.
#[verifier::external_body]
fn push_char(s: &mut String, c: char)
    ensures
        final(s)@ == old(s)@.push(c),
{
    s.push(c);
}

pub fn is_reserved(c: char) -> (r: bool)
    ensures
        r == reserved(c),
{
    c == '+' || c == '-' || c == '=' || c == '&' || c == '|' || c == '>' || c == '<' || c == '!'
        || c == '(' || c == ')' || c == '{' || c == '}' || c == '[' || c == ']' || c == '^'
        || c == '"' || c == '~' || c == '*' || c == '?' || c == ':' || c == '\\'
}

/// Escapes every reserved character of `q` with a preceding backslash.
pub fn escape(q: &str) -> (r: String)
    ensures
        r@ == escaped(q@),
{
    let mut s = String::new();
    for c in it: q.chars()
        invariant
            it.seq() == q@,
            s@ == escaped(q@.take(it.index() as int)),
    {
        let ghost i = it.index();
        if is_reserved(c) {
            push_char(&mut s, '\\');
        }
        push_char(&mut s, c);
        proof {
            assert(q@.take(i + 1).drop_last() =~= q@.take(i as int));
        }
    }
    proof {
        assert(q@.take(q@.len() as int) =~= q@);
    }
    s
}

impl SearchType {
    /// Renders the expression in the provider's query syntax.
    pub fn to_string(&self) -> (r: String)
        ensures
            r@ == render_type(*self),
        decreases *self,
    {
        match self {
            SearchType::Simple(x) => escape(x.as_str()),
            SearchType::Exact(x) => {
                let mut r = String::new();
                push_char(&mut r, '"');
                r.append(escape(x.as_str()).as_str());
                push_char(&mut r, '"');
                assert(r@ =~= render_type(*self));
                r
            },
            SearchType::Regex(x) => {
                let mut r = String::new();
                push_char(&mut r, '/');
                r.append(escape(x.as_str()).as_str());
                push_char(&mut r, '/');
                assert(r@ =~= render_type(*self));
                r
            },
            SearchType::Or(v) => {
                proof {
                    reveal_strlit(" OR ");
                    assert(" OR "@ =~= or_separator());
                }
                join_rendered(v, " OR ")
            },
            SearchType::And(v) => {
                proof {
                    reveal_strlit(" ");
                    assert(" "@ =~= and_separator());
                }
                join_rendered(v, " ")
            },
        }
    }
}

fn join_rendered(items: &Vec<SearchType>, sep: &str) -> (r: String)
    ensures
        r@ == render_joined(items@, sep@),
    decreases items, 0nat,
{
    let mut r = String::new();
    let mut i: usize = 0;
    while i < items.len()
        invariant
            i <= items@.len(),
            r@ == render_joined(items@.take(i as int), sep@),
        decreases items.len() - i,
    {
        let part = items[i].to_string();
        if i > 0 {
            r.append(sep);
        }
        r.append(part.as_str());
        proof {
            let t = items@.take(i + 1);
            assert(t.drop_last() =~= items@.take(i as int));
            if i == 0 {
                assert(render_joined(items@.take(0), sep@) =~= Seq::empty());
            }
        }
        i = i + 1;
    }
    proof {
        assert(items@.take(items@.len() as int) =~= items@);
    }
    r
}

/// A search over one of the provider's fields.
#[derive(Debug)]
pub enum Query {
    /// Search for an email
    Email(SearchType),
    /// Search for an ip address
    IpAddress(SearchType),
    /// Search for an username
    Username(SearchType),
    /// Search for an password
    Password(SearchType),
    /// Search for an hashed password
    HashedPassword(SearchType),
    /// Search for a name
    Name(SearchType),
    /// Search for a domain
    Domain(SearchType),
    /// Search for a vin
    Vin(SearchType),
    /// Search for a phone
    Phone(SearchType),
    /// Search for an address
    Address(SearchType),
}

/// The provider's name of the field a query searches.
pub open spec fn field_name(q: Query) -> Seq<char> {
    match q {
        Query::Email(_) => "email"@,
        Query::IpAddress(_) => "ip_address"@,
        Query::Username(_) => "username"@,
        Query::Password(_) => "password"@,
        Query::HashedPassword(_) => "hashed_password"@,
        Query::Name(_) => "name"@,
        Query::Domain(_) => "domain"@,
        Query::Vin(_) => "vin"@,
        Query::Phone(_) => "phone"@,
        Query::Address(_) => "address"@,
    }
}

/// The expression a query applies to its field.
pub open spec fn query_term(q: Query) -> SearchType {
    match q {
        Query::Email(t) => t,
        Query::IpAddress(t) => t,
        Query::Username(t) => t,
        Query::Password(t) => t,
        Query::HashedPassword(t) => t,
        Query::Name(t) => t,
        Query::Domain(t) => t,
        Query::Vin(t) => t,
        Query::Phone(t) => t,
        Query::Address(t) => t,
    }
}

/// `<field>:<expression>` in the provider's query syntax.
pub open spec fn render_query(q: Query) -> Seq<char> {
    field_name(q) + seq![':'] + render_type(query_term(q))
}

impl Query {
    /// Renders the query in the provider's query syntax.
    pub fn to_string(&self) -> (r: String)
        ensures
            r@ == render_query(*self),
    {
        let (name, term) = match self {
            Query::Email(t) => ("email", t),
            Query::IpAddress(t) => ("ip_address", t),
            Query::Username(t) => ("username", t),
            Query::Password(t) => ("password", t),
            Query::HashedPassword(t) => ("hashed_password", t),
            Query::Name(t) => ("name", t),
            Query::Domain(t) => ("domain", t),
            Query::Vin(t) => ("vin", t),
            Query::Phone(t) => ("phone", t),
            Query::Address(t) => ("address", t),
        };
        let mut r = String::from_str(name);
        push_char(&mut r, ':');
        r.append(term.to_string().as_str());
        assert(r@ =~= render_query(*self));
        r
    }
}

} // verus!
