//! The parameters a client hands over in the query string of its request, and
//! the typed values they stand for.

use indexmap::IndexMap;
use vstd::prelude::*;
use vstd::string::*;

verus! {

/// The encoding of the messages on a connection.
#[derive(Debug, Copy, Clone, Eq, PartialEq, Hash, Structural)]
pub enum MsgFormat {
    Json,
    Bincode,
    Msgpack,
}

impl Default for MsgFormat {
    /// A request that names no format speaks JSON.
    fn default() -> (format: MsgFormat)
        ensures
            format == MsgFormat::Json,
    {
        MsgFormat::Json
    }
}

impl MsgFormat {
    /// The format a client of this library speaks unless told otherwise.
    pub fn default_rs() -> (format: MsgFormat)
        ensures
            format == MsgFormat::Bincode,
    {
        MsgFormat::Bincode
    }

    /// The word that stands for the format in a query string.
    pub open spec fn text(self) -> Seq<char> {
        match self {
            MsgFormat::Json => "json"@,
            MsgFormat::Bincode => "bincode"@,
            MsgFormat::Msgpack => "msgpack"@,
        }
    }

    /// The name of the format as it is shown to people.
    pub open spec fn label(self) -> Seq<char> {
        match self {
            MsgFormat::Json => "Json"@,
            MsgFormat::Bincode => "Bincode"@,
            MsgFormat::Msgpack => "Msgpack"@,
        }
    }

    /// The format a word stands for, if it stands for one.
    pub open spec fn parsed(word: Seq<char>) -> Option<MsgFormat> {
        if word == "json"@ {
            Some(MsgFormat::Json)
        } else if word == "bincode"@ {
            Some(MsgFormat::Bincode)
        } else if word == "msgpack"@ {
            Some(MsgFormat::Msgpack)
        } else {
            None
        }
    }

    pub fn as_str(self) -> (word: &'static str)
        ensures
            word@ == self.text(),
    {
        match self {
            MsgFormat::Json => "json",
            MsgFormat::Bincode => "bincode",
            MsgFormat::Msgpack => "msgpack",
        }
    }

    pub fn name(self) -> (word: &'static str)
        ensures
            word@ == self.label(),
    {
        match self {
            MsgFormat::Json => "Json",
            MsgFormat::Bincode => "Bincode",
            MsgFormat::Msgpack => "Msgpack",
        }
    }

    pub fn parse(word: &str) -> (format: Option<MsgFormat>)
        ensures
            format == MsgFormat::parsed(word@),
    {
        if same_text(word, "json") {
            Some(MsgFormat::Json)
        } else if same_text(word, "bincode") {
            Some(MsgFormat::Bincode)
        } else if same_text(word, "msgpack") {
            Some(MsgFormat::Msgpack)
        } else {
            None
        }
    }

    /// Every format is read back from its own word.
    pub proof fn lemma_text_round_trip(format: MsgFormat)
        ensures
            MsgFormat::parsed(format.text()) == Some(format),
    {
        reveal_strlit("json");
        reveal_strlit("bincode");
        reveal_strlit("msgpack");
        assert("json"@.len() == 4);
        assert("bincode"@.len() == 7);
        assert("bincode"@[0] == 'b');
        assert("msgpack"@[0] == 'm');
    }
}

/// How much of what has gone before a new observer is sent.
#[derive(Debug, Copy, Clone, Eq, PartialEq, Hash, Structural)]
pub enum QueryHistory {
    /// Nothing.
    Nothing,
    /// Everything.
    Full,
    /// The most recent entries, at most so many. The number is not zero.
    Limit(u16),
}

impl Default for QueryHistory {
    /// A request that names no policy gets everything.
    fn default() -> (history: QueryHistory)
        ensures
            history == QueryHistory::Full,
    {
        QueryHistory::Full
    }
}

impl QueryHistory {
    /// A limit is positive.
    pub open spec fn wf(self) -> bool {
        self matches QueryHistory::Limit(n) ==> n > 0
    }

    /// Whether the policy hangs together: a limit of zero is none.
    #[verifier::when_used_as_spec(wf)]
    pub fn is_valid(self) -> (valid: bool)
        ensures
            valid == self.wf(),
    {
        match self {
            QueryHistory::Limit(n) => n > 0,
            _ => true,
        }
    }

    /// The word that stands for the policy in a query string.
    pub open spec fn text(self) -> Seq<char> {
        match self {
            QueryHistory::Nothing => "none"@,
            QueryHistory::Full => "full"@,
            QueryHistory::Limit(n) => decimal_text(n as nat),
        }
    }

    /// The policy a word stands for, if it stands for one: `none`, `full`, or
    /// a positive number that fits sixteen bits, in decimal digits.
    pub open spec fn parsed(word: Seq<char>) -> Option<QueryHistory> {
        if word == "none"@ {
            Some(QueryHistory::Nothing)
        } else if word == "full"@ {
            Some(QueryHistory::Full)
        } else if is_decimal(word) && 0 < decimal_value(word) <= u16::MAX {
            Some(QueryHistory::Limit(decimal_value(word) as u16))
        } else {
            None
        }
    }

    /// The policy that keeps at most `n` entries; none for zero.
    pub fn limit(n: u16) -> (history: Option<QueryHistory>)
        ensures
            n == 0 ==> history is None,
            n > 0 ==> history == Some(QueryHistory::Limit(n)),
            history matches Some(h) ==> h.wf(),
    {
        if n == 0 {
            None
        } else {
            Some(QueryHistory::Limit(n))
        }
    }

    pub fn to_text(self) -> (word: String)
        requires
            self.wf(),
        ensures
            word@ == self.text(),
    {
        match self {
            QueryHistory::Nothing => String::from_str("none"),
            QueryHistory::Full => String::from_str("full"),
            QueryHistory::Limit(n) => render_decimal(n),
        }
    }

    pub fn parse(word: &str) -> (history: Option<QueryHistory>)
        ensures
            history == QueryHistory::parsed(word@),
            history matches Some(h) ==> h.wf(),
    {
        if same_text(word, "none") {
            Some(QueryHistory::Nothing)
        } else if same_text(word, "full") {
            Some(QueryHistory::Full)
        } else {
            match parse_decimal(word) {
                Some(n) => if n > 0 {
                    Some(QueryHistory::Limit(n))
                } else {
                    None
                },
                None => None,
            }
        }
    }

    /// Every well-formed policy is read back from its own word.
    pub proof fn lemma_text_round_trip(history: QueryHistory)
        requires
            history.wf(),
        ensures
            QueryHistory::parsed(history.text()) == Some(history),
    {
        reveal_strlit("none");
        reveal_strlit("full");
        assert("none"@.len() == 4 && "none"@[0] == 'n');
        assert("full"@.len() == 4 && "full"@[0] == 'f');
        match history {
            QueryHistory::Limit(n) => {
                lemma_decimal_round_trip(n as nat);
                let word = decimal_text(n as nat);
                assert(is_digit(word[0]));
            },
            _ => {},
        }
    }
}

/// The value a word stands for as a yes or no.
pub open spec fn parsed_flag(word: Seq<char>) -> Option<bool> {
    if word == "true"@ {
        Some(true)
    } else if word == "false"@ {
        Some(false)
    } else {
        None
    }
}

pub fn parse_flag(word: &str) -> (flag: Option<bool>)
    ensures
        flag == parsed_flag(word@),
{
    if same_text(word, "true") {
        Some(true)
    } else if same_text(word, "false") {
        Some(false)
    } else {
        None
    }
}

/// Whether two pieces of text hold the same characters.
pub fn same_text(a: &str, b: &str) -> (same: bool)
    ensures
        same == (a@ == b@),
{
    String::from_str(a) == String::from_str(b)
}

pub open spec fn is_digit(c: char) -> bool {
    '0' <= c <= '9'
}

pub open spec fn digit_value(c: char) -> nat {
    (c as u32 - '0' as u32) as nat
}

pub open spec fn digit_char(d: nat) -> char {
    (d + '0' as u32) as char
}

/// A word is decimal when it is made of digits, at least one.
pub open spec fn is_decimal(word: Seq<char>) -> bool {
    &&& word.len() > 0
    &&& forall|i: int| 0 <= i < word.len() ==> is_digit(#[trigger] word[i])
}

/// The number that a decimal word writes.
pub open spec fn decimal_value(word: Seq<char>) -> nat
    decreases word.len(),
{
    if word.len() == 0 {
        0
    } else {
        decimal_value(word.drop_last()) * 10 + digit_value(word.last())
    }
}

/// The decimal word for a number, without leading zeros.
pub open spec fn decimal_text(n: nat) -> Seq<char>
    decreases n,
{
    if n < 10 {
        seq![digit_char(n)]
    } else {
        decimal_text(n / 10).push(digit_char(n % 10))
    }
}

/// A word that starts with a decimal word is worth at least as much.
proof fn lemma_decimal_prefix(word: Seq<char>, k: int)
    requires
        0 <= k <= word.len(),
    ensures
        decimal_value(word.take(k)) <= decimal_value(word),
    decreases word.len() - k,
{
    if k == word.len() {
        assert(word.take(k) == word);
    } else {
        lemma_decimal_prefix(word.drop_last(), k);
        assert(word.drop_last().take(k) == word.take(k));
    }
}

/// The decimal word of a number is decimal, and writes that number.
pub proof fn lemma_decimal_round_trip(n: nat)
    ensures
        is_decimal(decimal_text(n)),
        decimal_value(decimal_text(n)) == n,
    decreases n,
{
    if n < 10 {
        let word = seq![digit_char(n)];
        assert(word.drop_last() == Seq::<char>::empty());
        assert(decimal_value(word.drop_last()) == 0);
        assert(word.last() == digit_char(n));
    } else {
        lemma_decimal_round_trip(n / 10);
        let head = decimal_text(n / 10);
        let word = head.push(digit_char(n % 10));
        assert(word.drop_last() == head);
        assert(word.last() == digit_char(n % 10));
        assert forall|i: int| 0 <= i < word.len() implies is_digit(#[trigger] word[i]) by {
            if i < head.len() {
                assert(word[i] == head[i]);
            }
        }
    }
}

fn digit_str(d: u16) -> (word: &'static str)
    requires
        d < 10,
    ensures
        word@ == seq![digit_char(d as nat)],
{
    proof {
        reveal_strlit("0");
        reveal_strlit("1");
        reveal_strlit("2");
        reveal_strlit("3");
        reveal_strlit("4");
        reveal_strlit("5");
        reveal_strlit("6");
        reveal_strlit("7");
        reveal_strlit("8");
        reveal_strlit("9");
    }
    let word = if d == 0 {
        "0"
    } else if d == 1 {
        "1"
    } else if d == 2 {
        "2"
    } else if d == 3 {
        "3"
    } else if d == 4 {
        "4"
    } else if d == 5 {
        "5"
    } else if d == 6 {
        "6"
    } else if d == 7 {
        "7"
    } else if d == 8 {
        "8"
    } else {
        "9"
    };
    assert(word@ =~= seq![digit_char(d as nat)]);
    word
}

/// The decimal word for `n`.
pub fn render_decimal(n: u16) -> (word: String)
    ensures
        word@ == decimal_text(n as nat),
    decreases n,
{
    if n < 10 {
        String::from_str(digit_str(n))
    } else {
        let head = render_decimal(n / 10);
        let word = head.concat(digit_str(n % 10));
        assert(word@ =~= decimal_text((n / 10) as nat).push(digit_char((n % 10) as nat)));
        word
    }
}

/// The number a decimal word writes, where it fits sixteen bits.
pub fn parse_decimal(word: &str) -> (value: Option<u16>)
    ensures
        value == if is_decimal(word@) && decimal_value(word@) <= u16::MAX {
            Some(decimal_value(word@) as u16)
        } else {
            None
        },
{
    let len = word.unicode_len();
    if len == 0 {
        return None;
    }
    let mut acc: u32 = 0;
    let mut i: usize = 0;
    while i < len
        invariant
            len == word@.len(),
            0 <= i <= len,
            acc == decimal_value(word@.take(i as int)),
            acc <= u16::MAX,
            forall|j: int| 0 <= j < i ==> is_digit(#[trigger] word@[j]),
        decreases len - i,
    {
        let c = word.get_char(i);
        if !('0' <= c && c <= '9') {
            return None;
        }
        let d: u32 = c as u32 - '0' as u32;
        proof {
            let next = word@.take(i + 1);
            assert(next.drop_last() == word@.take(i as int));
            assert(next.last() == c);
        }
        acc = acc * 10 + d;
        i = i + 1;
        if acc > 65535 {
            proof {
                lemma_decimal_prefix(word@, i as int);
            }
            return None;
        }
    }
    proof {
        assert(word@.take(len as int) == word@);
    }
    Some(acc as u16)
}

/// `indexmap::IndexMap`, as a value that is carried along; what it holds is
/// told by the names below.
#[verifier::external_type_specification]
#[verifier::external_body]
#[verifier::reject_recursive_types(K)]
#[verifier::reject_recursive_types(V)]
#[verifier::reject_recursive_types(S)]
pub struct ExIndexMap<K, V, S>(IndexMap<K, V, S>);

/// What a map of query parameters holds: the value under each key.
pub uninterp spec fn query_fields(map: IndexMap<String, String>) -> Map<Seq<char>, Seq<char>>;

/// `IndexMap::get`, with the value copied out: the value under `key`, or
/// nothing where the map has no such key.
#[verifier::external_body]
pub(crate) fn lookup(map: &IndexMap<String, String>, key: &str) -> (value: Option<String>)
    ensures
        match value {
            Some(v) => query_fields(*map).contains_key(key@) && query_fields(*map)[key@] == v@,
            None => !query_fields(*map).contains_key(key@),
        },
{
    map.get(key).cloned()
}

/// `IndexMap::insert`: afterwards `key` holds `value`, and every other key
/// holds what it held.
#[verifier::external_body]
pub(crate) fn store(map: &mut IndexMap<String, String>, key: String, value: String)
    ensures
        query_fields(*final(map)) == query_fields(*old(map)).insert(key@, value@),
{
    map.insert(key, value);
}

/// What a query parameter turned out to be.
#[derive(Debug, Copy, Clone, Eq, PartialEq)]
pub enum Field<T> {
    /// The query names no such parameter.
    Absent,
    /// The parameter is there, and its value stands for nothing.
    Invalid,
    /// The parameter is there, with this value.
    Value(T),
}

/// The outcome of reading a parameter whose words `parsed` understands.
pub open spec fn field_of<T>(
    fields: Map<Seq<char>, Seq<char>>,
    key: Seq<char>,
    parsed: spec_fn(Seq<char>) -> Option<T>,
) -> Field<T> {
    if !fields.contains_key(key) {
        Field::Absent
    } else {
        match parsed(fields[key]) {
            Some(value) => Field::Value(value),
            None => Field::Invalid,
        }
    }
}

impl<T> Field<T> {
    /// The value where there is one, and `default` where the parameter is
    /// absent. An invalid parameter has no value and gets none here: whoever
    /// asks has turned it down before.
    pub open spec fn spec_or(self, default: T) -> T
        recommends
            !(self is Invalid),
    {
        match self {
            Field::Value(value) => value,
            _ => default,
        }
    }

    #[verifier::when_used_as_spec(spec_or)]
    pub fn or(self, default: T) -> (value: T)
        requires
            !(self is Invalid),
        ensures
            value == self.spec_or(default),
    {
        match self {
            Field::Value(value) => value,
            _ => default,
        }
    }
}

/// The parameters of a request, by name. The names this library reads are
/// `token`, `format`, `history` and `link`.
pub trait QueryMap: Sized {
    /// The value under each name.
    spec fn fields(&self) -> Map<Seq<char>, Seq<char>>;

    fn with_token(self, token: &str) -> (map: Self)
        ensures
            map.fields() == self.fields().insert("token"@, token@),
    ;

    fn with_msg_format(self, format: MsgFormat) -> (map: Self)
        ensures
            map.fields() == self.fields().insert("format"@, format.text()),
    ;

    fn with_query_history(self, query_history: QueryHistory) -> (map: Self)
        requires
            query_history.wf(),
        ensures
            map.fields() == self.fields().insert("history"@, query_history.text()),
    ;

    fn with_link(self, link: bool) -> (map: Self)
        ensures
            map.fields() == self.fields().insert(
                "link"@,
                if link {
                    "true"@
                } else {
                    "false"@
                },
            ),
    ;

    fn get_token(&self) -> (token: Option<String>)
        ensures
            match token {
                Some(t) => self.fields().contains_key("token"@) && self.fields()["token"@] == t@,
                None => !self.fields().contains_key("token"@),
            },
    ;

    /// The format that the request names: none, one that stands for nothing,
    /// or the format. Which format a request without one speaks is for the
    /// caller to say.
    fn get_msg_format(&self) -> (field: Field<MsgFormat>)
        ensures
            field == field_of(self.fields(), "format"@, |w: Seq<char>| MsgFormat::parsed(w)),
    ;

    /// The history policy that the request names: none, one that stands for
    /// nothing, or the policy.
    fn get_query_history(&self) -> (field: Field<QueryHistory>)
        ensures
            field == field_of(self.fields(), "history"@, |w: Seq<char>| QueryHistory::parsed(w)),
            field matches Field::Value(h) ==> h.wf(),
    ;

    /// Whether the request asks for client records to be resolved: it does
    /// not say, it says what stands for nothing, or yes or no.
    fn get_link(&self) -> (field: Field<bool>)
        ensures
            field == field_of(self.fields(), "link"@, |w: Seq<char>| parsed_flag(w)),
    ;
}

impl QueryMap for IndexMap<String, String> {
    open spec fn fields(&self) -> Map<Seq<char>, Seq<char>> {
        query_fields(*self)
    }

    fn with_token(self, token: &str) -> (map: Self) {
        let mut map = self;
        store(&mut map, String::from_str("token"), String::from_str(token));
        map
    }

    fn with_msg_format(self, format: MsgFormat) -> (map: Self) {
        let mut map = self;
        store(&mut map, String::from_str("format"), String::from_str(format.as_str()));
        map
    }

    fn with_query_history(self, query_history: QueryHistory) -> (map: Self) {
        let mut map = self;
        store(&mut map, String::from_str("history"), query_history.to_text());
        map
    }

    fn with_link(self, link: bool) -> (map: Self) {
        let mut map = self;
        let word = if link {
            "true"
        } else {
            "false"
        };
        store(&mut map, String::from_str("link"), String::from_str(word));
        map
    }

    fn get_token(&self) -> (token: Option<String>) {
        lookup(self, "token")
    }

    fn get_msg_format(&self) -> (field: Field<MsgFormat>) {
        match lookup(self, "format") {
            None => Field::Absent,
            Some(word) => match MsgFormat::parse(word.as_str()) {
                Some(format) => Field::Value(format),
                None => Field::Invalid,
            },
        }
    }

    fn get_query_history(&self) -> (field: Field<QueryHistory>) {
        match lookup(self, "history") {
            None => Field::Absent,
            Some(word) => match QueryHistory::parse(word.as_str()) {
                Some(history) => Field::Value(history),
                None => Field::Invalid,
            },
        }
    }

    fn get_link(&self) -> (field: Field<bool>) {
        match lookup(self, "link") {
            None => Field::Absent,
            Some(word) => match parse_flag(word.as_str()) {
                Some(flag) => Field::Value(flag),
                None => Field::Invalid,
            },
        }
    }
}

} // verus!
