use vstd::prelude::*;

verus! {

/// A lower-case hexadecimal digit.
pub open spec fn hex_digit(d: nat) -> char {
    if d < 10 {
        digit_char(d)
    } else if d == 10 {
        'a'
    } else if d == 11 {
        'b'
    } else if d == 12 {
        'c'
    } else if d == 13 {
        'd'
    } else if d == 14 {
        'e'
    } else {
        'f'
    }
}

/// How one character stands inside a JSON string: the quote, the backslash
/// and the control characters are escaped, the short form where JSON has one;
/// every other character stands as it is.
pub open spec fn escaped_char(c: char) -> Seq<char> {
    let code = c as u32;
    if c == '"' {
        seq!['\\', '"']
    } else if c == '\\' {
        seq!['\\', '\\']
    } else if code == 0x08 {
        seq!['\\', 'b']
    } else if code == 0x0c {
        seq!['\\', 'f']
    } else if code == 0x0a {
        seq!['\\', 'n']
    } else if code == 0x0d {
        seq!['\\', 'r']
    } else if code == 0x09 {
        seq!['\\', 't']
    } else if code < 0x20 {
        seq!['\\', 'u', '0', '0', hex_digit(code as nat / 16), hex_digit(code as nat % 16)]
    } else {
        seq![c]
    }
}

/// The characters of `s`, each escaped as inside a JSON string.
pub open spec fn escaped(s: Seq<char>) -> Seq<char>
    decreases s.len(),
{
    if s.len() == 0 {
        Seq::empty()
    } else {
        escaped(s.drop_last()) + escaped_char(s.last())
    }
}

/// The JSON text of a string: quoted, with its special characters escaped.
pub open spec fn json_string_of(s: Seq<char>) -> Seq<char> {
    seq!['"'] + escaped(s) + seq!['"']
}

/// Relies on serde_json::to_string on a `&str`: the string written as a JSON
/// string literal, escaped as `escaped_char` says. On a string it cannot fail:
/// the only error it has is one of writing, and it writes into a `Vec`.
#[verifier::external_body]
fn json_string(s: &str) -> (r: Option<String>)
    ensures
        r is Some,
        r matches Some(t) ==> t@ == json_string_of(s@),
{
    serde_json::to_string(s).ok()
}

/// A string of characters that need no escape is written inside quotes as it is.
pub proof fn lemma_plain_string(s: Seq<char>)
    requires
        forall|i: int|
            0 <= i < s.len() ==> s[i] != '"' && s[i] != '\\' && (s[i] as u32) >= 0x20,
    ensures
        escaped(s) == s,
    decreases s.len(),
{
    if s.len() > 0 {
        lemma_plain_string(s.drop_last());
        assert(escaped(s) =~= s);
    }
}

/// The character of a decimal digit.
pub open spec fn digit_char(d: nat) -> char {
    if d == 0 { '0' }
    else if d == 1 { '1' }
    else if d == 2 { '2' }
    else if d == 3 { '3' }
    else if d == 4 { '4' }
    else if d == 5 { '5' }
    else if d == 6 { '6' }
    else if d == 7 { '7' }
    else if d == 8 { '8' }
    else { '9' }
}

/// A number in decimal, without leading zeros.
pub open spec fn decimal(n: nat) -> Seq<char>
    decreases n,
{
    if n < 10 {
        seq![digit_char(n)]
    } else {
        decimal(n / 10).push(digit_char(n % 10))
    }
}

fn digit_text(d: u64) -> (r: &'static str)
    requires
        d < 10,
    ensures
        r@ == seq![digit_char(d as nat)],
{
    proof {
        reveal_strlit("0");
        reveal_strlit("1");
        reveal_strlit("2");
        reveal_strlit("3");
        reveal_strlit("4");
        reveal_strlit("5");
        reveal_strlit("6");
        reveal_strlit("7");
        reveal_strlit("8");
        reveal_strlit("9");
    }
    if d == 0 { "0" }
    else if d == 1 { "1" }
    else if d == 2 { "2" }
    else if d == 3 { "3" }
    else if d == 4 { "4" }
    else if d == 5 { "5" }
    else if d == 6 { "6" }
    else if d == 7 { "7" }
    else if d == 8 { "8" }
    else { "9" }
}

/// `n` written in decimal.
pub fn decimal_text(n: u64) -> (r: String)
    ensures
        r@ == decimal(n as nat),
    decreases n,
{
    if n < 10 {
        String::from_str(digit_text(n))
    } else {
        let mut r = decimal_text(n / 10);
        r.append(digit_text(n % 10));
        r
    }
}

/// The parameters of `eth_getBlockByNumber`: the block asked for (a hex number
/// or a tag such as "latest") and whether whole transactions are wanted rather
/// than their hashes.
pub struct BlockParams {
    pub block: String,
    pub full_transactions: bool,
}

/// A JSON-RPC 2.0 call of `eth_getBlockByNumber`.
pub struct RpcRequest {
    pub jsonrpc: String,
    pub id: u64,
    pub method: String,
    pub params: BlockParams,
}

/// `r` asks, under id 1, for the block `block` with its full transactions.
pub open spec fn is_block_request(r: RpcRequest, block: Seq<char>) -> bool {
    &&& r.jsonrpc@ == "2.0"@
    &&& r.id == 1
    &&& r.method@ == "eth_getBlockByNumber"@
    &&& r.params.block@ == block
    &&& r.params.full_transactions
}

/// `true` or `false`.
pub open spec fn bool_text(b: bool) -> Seq<char> {
    if b { "true"@ } else { "false"@ }
}

/// The JSON text of a request.
pub open spec fn request_json(r: RpcRequest) -> Seq<char> {
    "{\"jsonrpc\":"@ + json_string_of(r.jsonrpc@) + ",\"id\":"@ + decimal(r.id as nat)
        + ",\"method\":"@ + json_string_of(r.method@) + ",\"params\":["@
        + json_string_of(r.params.block@) + ","@ + bool_text(r.params.full_transactions)
        + "]}"@
}

/// The request for block `block_number`, with its full transactions.
pub fn block_by_number_request(block_number: &str) -> (r: RpcRequest)
    ensures
        is_block_request(r, block_number@),
{
    RpcRequest {
        jsonrpc: String::from_str("2.0"),
        id: 1,
        method: String::from_str("eth_getBlockByNumber"),
        params: BlockParams { block: String::from_str(block_number), full_transactions: true },
    }
}

impl RpcRequest {
    /// The request as JSON text. It is always there; the `Option` stands for the
    /// JSON writer, which has no failure on strings.
    pub fn to_json(&self) -> (r: Option<String>)
        ensures
            r is Some,
            r matches Some(t) ==> t@ == request_json(*self),
    {
        let version = match json_string(self.jsonrpc.as_str()) {
            Some(t) => t,
            None => return None,
        };
        let method = match json_string(self.method.as_str()) {
            Some(t) => t,
            None => return None,
        };
        let block = match json_string(self.params.block.as_str()) {
            Some(t) => t,
            None => return None,
        };
        let mut text = String::from_str("{\"jsonrpc\":");
        text.append(version.as_str());
        text.append(",\"id\":");
        text.append(decimal_text(self.id).as_str());
        text.append(",\"method\":");
        text.append(method.as_str());
        text.append(",\"params\":[");
        text.append(block.as_str());
        text.append(",");
        text.append(if self.params.full_transactions { "true" } else { "false" });
        text.append("]}");
        Some(text)
    }
}

/// The request for a block always sets its second parameter to the JSON
/// boolean `true`: its text ends in `,true]}` right after the quoted block
/// identifier.
pub proof fn lemma_full_transactions_flag(r: RpcRequest, block: Seq<char>)
    requires
        is_block_request(r, block),
    ensures
        r.params.full_transactions,
        request_json(r) == "{\"jsonrpc\":"@ + json_string_of("2.0"@) + ",\"id\":"@ + "1"@
            + ",\"method\":"@ + json_string_of("eth_getBlockByNumber"@) + ",\"params\":["@
            + json_string_of(block) + ","@ + "true"@ + "]}"@,
{
    reveal_strlit("1");
    assert(decimal(1) =~= "1"@);
}

/// The request for the latest block is, letter for letter,
/// `{"jsonrpc":"2.0","id":1,"method":"eth_getBlockByNumber","params":["latest",true]}`.
pub proof fn lemma_latest_request_text(r: RpcRequest)
    requires
        is_block_request(r, "latest"@),
    ensures
        request_json(r)
            == "{\"jsonrpc\":\"2.0\",\"id\":1,\"method\":\"eth_getBlockByNumber\",\"params\":[\"latest\",true]}"@,
{
    reveal_strlit("2.0");
    reveal_strlit("eth_getBlockByNumber");
    reveal_strlit("latest");
    reveal_strlit("1");
    reveal_strlit("true");
    reveal_strlit("{\"jsonrpc\":");
    reveal_strlit(",\"id\":");
    reveal_strlit(",\"method\":");
    reveal_strlit(",\"params\":[");
    reveal_strlit(",");
    reveal_strlit("]}");
    reveal_strlit("{\"jsonrpc\":\"2.0\",\"id\":1,\"method\":\"eth_getBlockByNumber\",\"params\":[\"latest\",true]}");
    lemma_plain_string("2.0"@);
    lemma_plain_string("eth_getBlockByNumber"@);
    lemma_plain_string("latest"@);
    assert(decimal(1) =~= "1"@);
    assert(request_json(r) =~= "{\"jsonrpc\":\"2.0\",\"id\":1,\"method\":\"eth_getBlockByNumber\",\"params\":[\"latest\",true]}"@);
}

} // verus!
