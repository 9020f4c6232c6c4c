//! A URL taken apart: protocol, host, port, path and query parameters.

use vstd::prelude::*;
use crate::chars::{
    char_is_numeric, from_chars, is_numeric, lemma_split_on_len, push_char, replace_all,
    replace_chars, same_chars, split_chars, split_on, strings_view, to_chars,
};
use crate::kv_data::{copy_rows, rows_view, KVData, KVDataView};
use crate::url_params::PARAM_LIMIT;

verus! {

#[derive(Clone, Copy, Debug, PartialEq, Eq, Structural)]
pub enum Protocol {
    HTTP,
    HTTPS,
}

impl Default for Protocol {
    fn default() -> (p: Self)
        ensures
            p == Protocol::HTTP,
    {
        Protocol::HTTP
    }
}

impl Protocol {
    /// The protocol's name as a URL starts with it.
    pub open spec fn name(self) -> Seq<char> {
        match self {
            Protocol::HTTP => "http"@,
            Protocol::HTTPS => "https"@,
        }
    }

    /// The port that the protocol uses where a URL names none.
    pub open spec fn default_port(self) -> int {
        match self {
            Protocol::HTTP => 80,
            Protocol::HTTPS => 443,
        }
    }

    pub fn to_str(&self) -> (s: &'static str)
        ensures
            s@ == self.name(),
    {
        match self {
            Protocol::HTTP => "http",
            Protocol::HTTPS => "https",
        }
    }
}

/// The character for the digit `d`.
pub open spec fn digit_char(d: int) -> char {
    if d == 0 {
        '0'
    } else if d == 1 {
        '1'
    } else if d == 2 {
        '2'
    } else if d == 3 {
        '3'
    } else if d == 4 {
        '4'
    } else if d == 5 {
        '5'
    } else if d == 6 {
        '6'
    } else if d == 7 {
        '7'
    } else if d == 8 {
        '8'
    } else {
        '9'
    }
}

/// `n` written in decimal, without leading zeros.
pub open spec fn decimal(n: nat) -> Seq<char>
    decreases n,
{
    if n < 10 {
        seq![digit_char(n as int)]
    } else {
        decimal(n / 10).push(digit_char((n % 10) as int))
    }
}

fn digit_to_char(d: u16) -> (c: char)
    requires
        d < 10,
    ensures
        c == digit_char(d as int),
{
    if d == 0 {
        '0'
    } else if d == 1 {
        '1'
    } else if d == 2 {
        '2'
    } else if d == 3 {
        '3'
    } else if d == 4 {
        '4'
    } else if d == 5 {
        '5'
    } else if d == 6 {
        '6'
    } else if d == 7 {
        '7'
    } else if d == 8 {
        '8'
    } else {
        '9'
    }
}

/// Writes `n` in decimal.
pub fn decimal_string(n: u16) -> (s: String)
    ensures
        s@ == decimal(n as nat),
    decreases n,
{
    if n < 10 {
        let mut s = String::new();
        push_char(&mut s, digit_to_char(n));
        proof {
            assert(s@ =~= seq![digit_char(n as int)]);
        }
        s
    } else {
        let mut s = decimal_string(n / 10);
        push_char(&mut s, digit_to_char(n % 10));
        s
    }
}

/// The digit that `c` stands for, if it is one of the ten decimal digits.
pub open spec fn digit_of(c: char) -> Option<int> {
    if c == '0' {
        Some(0)
    } else if c == '1' {
        Some(1)
    } else if c == '2' {
        Some(2)
    } else if c == '3' {
        Some(3)
    } else if c == '4' {
        Some(4)
    } else if c == '5' {
        Some(5)
    } else if c == '6' {
        Some(6)
    } else if c == '7' {
        Some(7)
    } else if c == '8' {
        Some(8)
    } else if c == '9' {
        Some(9)
    } else {
        None
    }
}

/// Whether `c` is one of the ten decimal digits.
pub open spec fn is_digit(c: char) -> bool {
    digit_of(c) is Some
}

pub fn char_to_digit(c: char) -> (d: Option<u32>)
    ensures
        match d {
            Some(v) => digit_of(c) == Some(v as int),
            None => digit_of(c) is None,
        },
{
    if c == '0' {
        Some(0)
    } else if c == '1' {
        Some(1)
    } else if c == '2' {
        Some(2)
    } else if c == '3' {
        Some(3)
    } else if c == '4' {
        Some(4)
    } else if c == '5' {
        Some(5)
    } else if c == '6' {
        Some(6)
    } else if c == '7' {
        Some(7)
    } else if c == '8' {
        Some(8)
    } else if c == '9' {
        Some(9)
    } else {
        None
    }
}

/// The number that the digits `d` write in decimal.
pub open spec fn digits_value(d: Seq<char>) -> int
    decreases d.len(),
{
    if d.len() == 0 {
        0
    } else {
        digits_value(d.drop_last()) * 10 + match digit_of(d.last()) {
            Some(v) => v,
            None => 0,
        }
    }
}

/// `s` without the `+` that it may start with.
pub open spec fn without_sign(s: Seq<char>) -> Seq<char> {
    if s.len() > 0 && s[0] == '+' {
        s.skip(1)
    } else {
        s
    }
}

/// Whether `d` holds decimal digits only.
pub open spec fn all_digits(d: Seq<char>) -> bool {
    forall|i: int| 0 <= i < d.len() ==> is_digit(#[trigger] d[i])
}

/// The number that `d` writes: one or more decimal digits, whose value fits
/// in 16 bits. `None` for anything else.
pub open spec fn parse_digits(d: Seq<char>) -> Option<u16> {
    if d.len() > 0 && all_digits(d) && digits_value(d) <= u16::MAX {
        Some(digits_value(d) as u16)
    } else {
        None
    }
}

/// The port that `s` writes: an optional `+` and then one or more decimal
/// digits, whose value fits in 16 bits. `None` for anything else.
pub open spec fn parse_port(s: Seq<char>) -> Option<u16> {
    parse_digits(without_sign(s))
}

/// For each character of `s`, whether it is numeric.
pub open spec fn numeric_flags(s: Seq<char>) -> Seq<bool> {
    s.map_values(|c: char| is_numeric(c))
}

/// Number of set flags that `flags` starts with.
pub open spec fn leading_run(flags: Seq<bool>) -> int
    decreases flags.len(),
{
    if flags.len() > 0 && flags[0] {
        1 + leading_run(flags.skip(1))
    } else {
        0
    }
}

/// Number of numeric characters that `s` starts with.
pub open spec fn numeric_prefix_len(s: Seq<char>) -> int {
    leading_run(numeric_flags(s))
}

/// The parameters that the pieces of a query string denote, empty pieces
/// passed over.
pub open spec fn params_of(pairs: Seq<Seq<char>>) -> Seq<KVDataView>
    decreases pairs.len(),
{
    if pairs.len() == 0 {
        Seq::empty()
    } else {
        let head = params_of(pairs.drop_last());
        if pairs.last().len() > 0 {
            head.push(KVDataView::parse(pairs.last()))
        } else {
            head
        }
    }
}

/// The value of digits never falls below the value of a prefix of them.
pub proof fn lemma_digits_value_grows(d: Seq<char>, n: int)
    requires
        0 <= n <= d.len(),
        all_digits(d),
    ensures
        0 <= digits_value(d.take(n)) <= digits_value(d),
    decreases d.len() - n,
{
    if n == d.len() {
        assert(d.take(n) =~= d);
        lemma_digits_value_nonnegative(d);
    } else {
        lemma_digits_value_grows(d, n + 1);
        assert(d.take(n + 1).drop_last() =~= d.take(n));
        assert(is_digit(d[n]));
        assert(d.take(n + 1).last() == d[n]);
        assert forall|i: int| 0 <= i < d.take(n).len() implies is_digit(
            #[trigger] d.take(n)[i],
        ) by {
            assert(d.take(n)[i] == d[i]);
        }
        lemma_digits_value_nonnegative(d.take(n));
    }
}

/// The value of digits is not negative.
pub proof fn lemma_digits_value_nonnegative(d: Seq<char>)
    requires
        all_digits(d),
    ensures
        0 <= digits_value(d),
    decreases d.len(),
{
    if d.len() > 0 {
        assert forall|i: int| 0 <= i < d.drop_last().len() implies is_digit(
            #[trigger] d.drop_last()[i],
        ) by {
            assert(d.drop_last()[i] == d[i]);
        }
        lemma_digits_value_nonnegative(d.drop_last());
        assert(is_digit(d[d.len() - 1]));
    }
}

/// Reads the number that the characters of `chars` from index `start` on
/// write in decimal.
fn read_digits(chars: &Vec<char>, start: usize) -> (number: Option<u16>)
    requires
        start <= chars@.len(),
    ensures
        number == parse_digits(chars@.skip(start as int)),
{
    let ghost d = chars@.skip(start as int);
    if chars.len() == start {
        return None;
    }
    let mut value: u32 = 0;
    let mut i: usize = start;
    proof {
        assert(d.take(0) =~= Seq::<char>::empty());
    }
    while i < chars.len()
        invariant
            start <= i <= chars@.len(),
            start < chars@.len(),
            d == chars@.skip(start as int),
            all_digits(d.take(i - start)),
            value == digits_value(d.take(i - start)),
            value <= u16::MAX,
        decreases chars@.len() - i,
    {
        let ghost seen = d.take(i - start);
        let ghost next = d.take(i - start + 1);
        proof {
            assert(d[i - start] == chars@[i as int]);
            assert(next.drop_last() =~= seen);
            assert(next.last() == chars@[i as int]);
        }
        let v = match char_to_digit(chars[i]) {
            Some(v) => v,
            None => {
                proof {
                    assert(!is_digit(d[i - start]));
                }
                return None;
            },
        };
        proof {
            assert forall|k: int| 0 <= k < next.len() implies is_digit(#[trigger] next[k]) by {
                if k < seen.len() {
                    assert(next[k] == seen[k]);
                }
            }
        }
        value = value * 10 + v;
        if value > 65535 {
            proof {
                if all_digits(d) {
                    lemma_digits_value_grows(d, i - start + 1);
                }
            }
            return None;
        }
        i = i + 1;
    }
    proof {
        assert(d.take(i - start) =~= d);
    }
    Some(value as u16)
}

/// Reads a port number: an optional `+`, then decimal digits.
pub fn read_port(s: &str) -> (port: Option<u16>)
    ensures
        port == parse_port(s@),
{
    let chars = to_chars(s);
    let start: usize = if chars.len() > 0 && chars[0] == '+' {
        1
    } else {
        0
    };
    proof {
        assert(chars@.skip(start as int) =~= without_sign(s@));
    }
    read_digits(&chars, start)
}

/// Marks the numeric characters of `chars`.
pub fn mark_numeric(chars: &Vec<char>) -> (flags: Vec<bool>)
    ensures
        flags@ == numeric_flags(chars@),
{
    let mut flags: Vec<bool> = Vec::new();
    let mut i: usize = 0;
    while i < chars.len()
        invariant
            i <= chars@.len(),
            flags@ == numeric_flags(chars@.take(i as int)),
        decreases chars@.len() - i,
    {
        let flag = char_is_numeric(chars[i]);
        proof {
            assert(flags@.push(flag) =~= numeric_flags(chars@.take(i + 1)));
        }
        flags.push(flag);
        i = i + 1;
    }
    proof {
        assert(chars@.take(i as int) =~= chars@);
    }
    flags
}

/// Counts the set flags that `flags` starts with.
pub fn count_leading(flags: &Vec<bool>) -> (n: usize)
    ensures
        n == leading_run(flags@),
        n <= flags@.len(),
{
    let mut n: usize = 0;
    proof {
        assert(flags@.skip(0) =~= flags@);
    }
    while n < flags.len()
        invariant
            n <= flags@.len(),
            leading_run(flags@) == n + leading_run(flags@.skip(n as int)),
        decreases flags@.len() - n,
    {
        if !flags[n] {
            return n;
        }
        proof {
            assert(flags@.skip(n as int).skip(1) =~= flags@.skip(n + 1));
        }
        n = n + 1;
    }
    n
}

/// The query string of `params`: the text of each parameter that has one,
/// each but one at the very front preceded by `&`.
pub open spec fn query_string(params: Seq<KVDataView>) -> Seq<char>
    decreases params.len(),
{
    if params.len() == 0 {
        Seq::empty()
    } else {
        let head = query_string(params.drop_last());
        let text = params.last().text();
        if text.len() == 0 {
            head
        } else if params.len() > 1 {
            head + seq!['&'] + text
        } else {
            head + text
        }
    }
}

/// A URL as plain values.
pub struct UrlView {
    pub protocol: Protocol,
    pub host: Seq<char>,
    pub port: int,
    pub path: Seq<char>,
    pub query_params: Seq<KVDataView>,
}

impl UrlView {
    /// No host, plain HTTP on its own port, one empty parameter.
    pub open spec fn initial() -> Self {
        UrlView {
            protocol: Protocol::HTTP,
            host: Seq::empty(),
            port: 80,
            path: Seq::empty(),
            query_params: seq![KVDataView::empty()],
        }
    }

    /// The URL written out: protocol, host, the port unless it is the
    /// protocol's own, the path, and the query string after `?` where there
    /// are parameters.
    pub open spec fn text(self) -> Seq<char> {
        self.protocol.name() + "://"@ + self.host + (if self.port
            != self.protocol.default_port() {
            seq![':'] + decimal(self.port as nat)
        } else {
            Seq::empty()
        }) + self.path + (if self.query_params.len() > 0 {
            seq!['?'] + query_string(self.query_params)
        } else {
            Seq::empty()
        })
    }

    /// The parameters replaced by those that `query` writes, separated by
    /// `&`; by one empty parameter where it writes none.
    pub open spec fn with_query(self, query: Seq<char>) -> Self {
        let params = params_of(split_on(query, '&', '&'));
        UrlView {
            query_params: if params.len() == 0 {
                seq![KVDataView::empty()]
            } else {
                params
            },
            ..self
        }
    }

    /// The port and the path as `token` gives them. A token that is a port
    /// sets the port. A token that starts with numeric characters sets the
    /// port to what they write and the path to the token without them,
    /// wherever they occur in it; where they write no port, the whole token
    /// is the path. Any other token sets nothing.
    pub open spec fn with_port_and_path(self, token: Seq<char>) -> Self {
        let prefix = token.take(numeric_prefix_len(token));
        match parse_port(token) {
            Some(port) => UrlView { port: port as int, ..self },
            None => if prefix.len() == 0 {
                self
            } else {
                match parse_port(prefix) {
                    Some(port) => UrlView {
                        port: port as int,
                        path: replace_all(token, prefix, Seq::empty()),
                        ..self
                    },
                    None => UrlView { path: token, ..self },
                }
            },
        }
    }

    /// Whether `token` was taken for the port or the path.
    pub open spec fn takes_token(token: Seq<char>) -> bool {
        parse_port(token) is Some || numeric_prefix_len(token) > 0
    }

    /// The tokens from index `at` on applied: port and path, then the query.
    pub open spec fn with_rest(self, tokens: Seq<Seq<char>>, at: int) -> Self {
        let placed = self.with_port_and_path(tokens[at]);
        let next = if Self::takes_token(tokens[at]) {
            at + 1
        } else {
            at
        };
        if next == tokens.len() {
            placed
        } else {
            placed.with_query(tokens[next])
        }
    }

    /// The URL after `url` was typed: `url` is cut at `://`, `:` and `?`.
    /// A single piece is the host, over plain HTTP. Else a first piece
    /// `http` or `https` names the protocol, with its port, and the next
    /// piece is the host; any other first piece is itself the host. What
    /// follows gives port, path and query.
    pub open spec fn update(self, url: Seq<char>) -> Self {
        let tokens = split_on(replace_all(url, "://"@, ":"@), ':', '?');
        if tokens.len() == 1 {
            UrlView { protocol: Protocol::HTTP, host: url, port: 80, ..self }
        } else {
            let named = tokens[0] == "http"@ || tokens[0] == "https"@;
            let protocol = if tokens[0] == "https"@ {
                Protocol::HTTPS
            } else {
                Protocol::HTTP
            };
            let start = UrlView {
                protocol,
                host: if named {
                    tokens[1]
                } else {
                    tokens[0]
                },
                port: if named {
                    protocol.default_port()
                } else {
                    self.port
                },
                ..self
            };
            if named && tokens.len() == 2 {
                start
            } else if named {
                start.with_rest(tokens, 2)
            } else {
                start.with_rest(tokens, 1)
            }
        }
    }

    /// `param` inserted before index `pos`, unless there are `PARAM_LIMIT`
    /// parameters already or `pos` is the limit or past the end.
    pub open spec fn insert_param(self, pos: int, param: KVDataView) -> Self {
        if self.query_params.len() == PARAM_LIMIT || pos == PARAM_LIMIT || pos
            > self.query_params.len() {
            self
        } else {
            UrlView { query_params: self.query_params.insert(pos, param), ..self }
        }
    }

    /// The parameter at index `pos` removed; where it was the only one, an
    /// empty parameter takes its place. Unchanged where there is none at
    /// `pos`.
    pub open spec fn remove_param(self, pos: int) -> Self {
        if pos >= self.query_params.len() {
            self
        } else if self.query_params.len() == 1 {
            UrlView { query_params: seq![KVDataView::empty()], ..self }
        } else {
            UrlView { query_params: self.query_params.remove(pos), ..self }
        }
    }
}

pub struct Url {
    protocol: Protocol,
    host: String,
    port: u16,
    path: String,
    query_params: Vec<KVData>,
}

impl View for Url {
    type V = UrlView;

    closed spec fn view(&self) -> UrlView {
        UrlView {
            protocol: self.protocol,
            host: self.host@,
            port: self.port as int,
            path: self.path@,
            query_params: rows_view(self.query_params@),
        }
    }
}

impl Clone for Url {
    fn clone(&self) -> (u: Self)
        ensures
            u@ == self@,
    {
        Url {
            protocol: self.protocol,
            host: self.host.clone(),
            port: self.port,
            path: self.path.clone(),
            query_params: copy_rows(&self.query_params),
        }
    }
}

impl Default for Url {
    fn default() -> (u: Self)
        ensures
            u@ == UrlView::initial(),
    {
        let mut query_params: Vec<KVData> = Vec::new();
        query_params.push(KVData::default());
        proof {
            assert(rows_view(query_params@) =~= seq![KVDataView::empty()]);
        }
        Url {
            protocol: Protocol::default(),
            host: String::new(),
            port: 80,
            path: String::new(),
            query_params,
        }
    }
}

impl Url {
    /// Takes the URL apart that the user typed.
    pub fn update(&mut self, url: String)
        ensures
            final(self)@ == old(self)@.update(url@),
    {
        proof {
            reveal_strlit("://");
            reveal_strlit("http");
            reveal_strlit("https");
            lemma_split_on_len(replace_all(url@, "://"@, ":"@), ':', '?');
        }
        let url_temp = replace_chars(url.as_str(), "://", ":");
        let tokens = split_chars(url_temp.as_str(), ':', '?');
        let len = tokens.len();
        if len == 1 {
            self.protocol = Protocol::HTTP;
            self.host = url.clone();
            self.port = 80;
            return ;
        }
        let mut named = true;
        if same_chars(tokens[0].as_str(), "https") {
            self.protocol = Protocol::HTTPS;
            self.port = 443;
        } else if same_chars(tokens[0].as_str(), "http") {
            self.protocol = Protocol::HTTP;
            self.port = 80;
        } else {
            self.protocol = Protocol::HTTP;
            named = false;
        }
        let at: usize = if named {
            self.host = tokens[1].clone();
            if len == 2 {
                return ;
            }
            2
        } else {
            self.host = tokens[0].clone();
            1
        };
        let taken = self.set_port_and_path(tokens[at].as_str());
        let next = if taken {
            at + 1
        } else {
            at
        };
        if next == len {
            return ;
        }
        self.query_params_from_str(tokens[next].as_str());
    }

    /// Sets port and path as `token` gives them, and says whether `token`
    /// was taken for either.
    fn set_port_and_path(&mut self, token: &str) -> (taken: bool)
        ensures
            final(self)@ == old(self)@.with_port_and_path(token@),
            taken == UrlView::takes_token(token@),
    {
        match read_port(token) {
            Some(port) => {
                self.port = port;
                true
            },
            None => {
                let chars = to_chars(token);
                let n = count_leading(&mark_numeric(&chars));
                if n == 0 {
                    return false;
                }
                let mut prefix_chars = chars.clone();
                prefix_chars.truncate(n);
                let prefix = from_chars(&prefix_chars);
                proof {
                    assert(prefix@ =~= token@.take(n as int));
                }
                match read_port(prefix.as_str()) {
                    Some(port) => {
                        self.port = port;
                        self.path = replace_chars(token, prefix.as_str(), "");
                        proof {
                            reveal_strlit("");
                            assert(""@ =~= Seq::<char>::empty());
                        }
                    },
                    None => {
                        self.path = String::from_str(token);
                    },
                }
                true
            },
        }
    }

    /// Replaces the parameters by those that `qp_str` writes.
    pub fn query_params_from_str(&mut self, qp_str: &str)
        ensures
            final(self)@ == old(self)@.with_query(qp_str@),
    {
        let pairs = split_chars(qp_str, '&', '&');
        let mut params: Vec<KVData> = Vec::new();
        let mut i: usize = 0;
        proof {
            assert(strings_view(pairs@).take(0) =~= Seq::empty());
            assert(rows_view(params@) =~= Seq::empty());
        }
        while i < pairs.len()
            invariant
                i <= pairs@.len(),
                rows_view(params@) == params_of(strings_view(pairs@).take(i as int)),
            decreases pairs@.len() - i,
        {
            proof {
                assert(strings_view(pairs@).take(i + 1).drop_last() =~= strings_view(pairs@).take(
                    i as int,
                ));
                assert(strings_view(pairs@).take(i + 1).last() == pairs@[i as int]@);
            }
            if !pairs[i].as_str().is_empty() {
                let param = KVData::from_str(pairs[i].as_str());
                proof {
                    assert(rows_view(params@.push(param)) =~= rows_view(params@).push(param@));
                }
                params.push(param);
            }
            i = i + 1;
        }
        proof {
            assert(strings_view(pairs@).take(i as int) =~= strings_view(pairs@));
        }
        if params.len() == 0 {
            params.push(KVData::default());
            proof {
                assert(rows_view(params@) =~= seq![KVDataView::empty()]);
            }
        }
        self.query_params = params;
    }

    /// The URL written out.
    pub fn to_string(&self) -> (s: String)
        ensures
            s@ == self@.text(),
    {
        let mut s = String::new();
        s.append(self.protocol.to_str());
        s.append("://");
        s.append(self.host.as_str());
        let default_port: u16 = match self.protocol {
            Protocol::HTTP => 80,
            Protocol::HTTPS => 443,
        };
        if self.port != default_port {
            push_char(&mut s, ':');
            s.append(decimal_string(self.port).as_str());
        }
        if !self.path.as_str().is_empty() {
            s.append(self.path.as_str());
        }
        if self.query_params.len() > 0 {
            push_char(&mut s, '?');
            s.append(self.query_params_to_string().as_str());
        }
        proof {
            assert(s@ =~= self@.text());
        }
        s
    }

    /// The query string of the parameters.
    pub fn query_params_to_string(&self) -> (s: String)
        ensures
            s@ == query_string(self@.query_params),
    {
        let mut s = String::new();
        let mut i: usize = 0;
        proof {
            assert(self@.query_params.take(0) =~= Seq::empty());
        }
        while i < self.query_params.len()
            invariant
                i <= self.query_params@.len(),
                self@.query_params == rows_view(self.query_params@),
                s@ == query_string(self@.query_params.take(i as int)),
            decreases self.query_params@.len() - i,
        {
            let text = self.query_params[i].to_string();
            proof {
                assert(self@.query_params.take(i + 1).drop_last() =~= self@.query_params.take(
                    i as int,
                ));
                assert(self@.query_params.take(i + 1).last() == self.query_params@[i as int]@);
            }
            if !text.as_str().is_empty() {
                if i > 0 {
                    push_char(&mut s, '&');
                }
                s.append(text.as_str());
            }
            i = i + 1;
        }
        proof {
            assert(self@.query_params.take(i as int) =~= self@.query_params);
        }
        s
    }

    pub fn protocol(&self) -> (p: Protocol)
        ensures
            p == self@.protocol,
    {
        self.protocol
    }

    pub fn host(&self) -> (h: String)
        ensures
            h@ == self@.host,
    {
        self.host.clone()
    }

    pub fn port(&self) -> (p: u16)
        ensures
            p == self@.port,
    {
        self.port
    }

    pub fn path(&self) -> (p: String)
        ensures
            p@ == self@.path,
    {
        self.path.clone()
    }

    pub fn query_params(&self) -> (params: &Vec<KVData>)
        ensures
            rows_view(params@) == self@.query_params,
    {
        &self.query_params
    }

    /// The parameters, to be changed in place.
    pub fn query_params_mut(&mut self) -> (params: &mut Vec<KVData>)
        ensures
            rows_view(params@) == old(self)@.query_params,
            final(self)@ == (UrlView { query_params: rows_view(final(params)@), ..old(self)@ }),
    {
        &mut self.query_params
    }

    /// The parameter at index `indx`, to be changed in place; `None` where
    /// there is none.
    pub fn get_param(&mut self, indx: u16) -> (param: Option<&mut KVData>)
        ensures
            match param {
                Some(p) => {
                    &&& indx < old(self)@.query_params.len()
                    &&& p@ == old(self)@.query_params[indx as int]
                    &&& final(self)@ == (UrlView {
                        query_params: old(self)@.query_params.update(indx as int, final(p)@),
                        ..old(self)@
                    })
                },
                None => indx >= old(self)@.query_params.len() && final(self)@ == old(self)@,
            },
    {
        if (indx as usize) < self.query_params.len() {
            let p = &mut self.query_params[indx as usize];
            proof {
                assert(rows_view(old(self).query_params@.update(indx as int, *final(p)))
                    =~= old(self)@.query_params.update(indx as int, final(p)@));
            }
            Some(p)
        } else {
            None
        }
    }

    /// Inserts `param` before index `pos`. There are never more than
    /// `PARAM_LIMIT` parameters, and nothing is inserted at `PARAM_LIMIT` or
    /// past the end.
    pub fn insert_param(&mut self, pos: u16, param: KVData)
        ensures
            final(self)@ == old(self)@.insert_param(pos as int, param@),
    {
        if self.query_params.len() == PARAM_LIMIT || pos as usize == PARAM_LIMIT || pos as usize
            > self.query_params.len() {
            return ;
        }
        self.query_params.insert(pos as usize, param);
        proof {
            assert(rows_view(self.query_params@) =~= old(self)@.query_params.insert(
                pos as int,
                param@,
            ));
        }
    }

    /// Removes the parameter at index `pos`; the parameters never become
    /// empty.
    pub fn remove_param(&mut self, pos: u16)
        ensures
            final(self)@ == old(self)@.remove_param(pos as int),
            old(self)@.query_params.len() >= 1 ==> final(self)@.query_params.len() >= 1,
    {
        if pos as usize >= self.query_params.len() {
            return ;
        }
        self.query_params.remove(pos as usize);
        if self.query_params.len() == 0 {
            self.query_params.push(KVData::default());
            proof {
                assert(rows_view(self.query_params@) =~= seq![KVDataView::empty()]);
            }
        } else {
            proof {
                assert(rows_view(self.query_params@) =~= old(self)@.query_params.remove(
                    pos as int,
                ));
            }
        }
    }
}

} // verus!
