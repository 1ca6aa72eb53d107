//! A JSON value as the protocol core sees it: the structure of a message,
//! with object members in their order of appearance.
use vstd::prelude::*;

verus! {

/// A JSON value. Integers are held exactly; any other number is held in its
/// JSON text form, which this library never reads.
#[derive(Debug, PartialEq)]
pub enum Json {
    Null,
    Bool(bool),
    /// A non-negative integer.
    PosInt(u64),
    /// A negative integer.
    NegInt(i64),
    /// A number with a fraction or an exponent, or out of the integer ranges.
    OtherNumber(String),
    Str(String),
    Array(Vec<Json>),
    Object(Vec<(String, Json)>),
}

/// The value of the first member of `fields` named `key`.
pub open spec fn field_of(fields: Seq<(String, Json)>, key: Seq<char>) -> Option<Json>
    decreases fields.len(),
{
    if fields.len() == 0 {
        None
    } else if fields[0].0@ == key {
        Some(fields[0].1)
    } else {
        field_of(fields.drop_first(), key)
    }
}

/// How many members of `fields` are named `key`.
pub open spec fn key_count(fields: Seq<(String, Json)>, key: Seq<char>) -> nat
    decreases fields.len(),
{
    if fields.len() == 0 {
        0
    } else {
        (if fields[0].0@ == key {
            1nat
        } else {
            0nat
        }) + key_count(fields.drop_first(), key)
    }
}

/// The members of a JSON-RPC object that the protocol reads, each taken
/// from the first member of that name.
pub struct Members {
    pub id: Option<Json>,
    pub jsonrpc: Option<Json>,
    pub method: Option<Json>,
    pub params: Option<Json>,
    pub result: Option<Json>,
    pub error: Option<Json>,
    pub code: Option<Json>,
    pub message: Option<Json>,
    pub data: Option<Json>,
}

pub open spec fn members_of(fields: Seq<(String, Json)>, m: Members) -> bool {
    &&& m.id == field_of(fields, "id"@)
    &&& m.jsonrpc == field_of(fields, "jsonrpc"@)
    &&& m.method == field_of(fields, "method"@)
    &&& m.params == field_of(fields, "params"@)
    &&& m.result == field_of(fields, "result"@)
    &&& m.error == field_of(fields, "error"@)
    &&& m.code == field_of(fields, "code"@)
    &&& m.message == field_of(fields, "message"@)
    &&& m.data == field_of(fields, "data"@)
}

/// The member names that the protocol reads are pairwise distinct.
pub proof fn lemma_keys_distinct()
    ensures
        "id"@ != "jsonrpc"@,
        "id"@ != "method"@,
        "id"@ != "params"@,
        "id"@ != "result"@,
        "id"@ != "error"@,
        "id"@ != "code"@,
        "id"@ != "message"@,
        "id"@ != "data"@,
        "jsonrpc"@ != "method"@,
        "jsonrpc"@ != "params"@,
        "jsonrpc"@ != "result"@,
        "jsonrpc"@ != "error"@,
        "jsonrpc"@ != "code"@,
        "jsonrpc"@ != "message"@,
        "jsonrpc"@ != "data"@,
        "method"@ != "params"@,
        "method"@ != "result"@,
        "method"@ != "error"@,
        "method"@ != "code"@,
        "method"@ != "message"@,
        "method"@ != "data"@,
        "params"@ != "result"@,
        "params"@ != "error"@,
        "params"@ != "code"@,
        "params"@ != "message"@,
        "params"@ != "data"@,
        "result"@ != "error"@,
        "result"@ != "code"@,
        "result"@ != "message"@,
        "result"@ != "data"@,
        "error"@ != "code"@,
        "error"@ != "message"@,
        "error"@ != "data"@,
        "code"@ != "message"@,
        "code"@ != "data"@,
        "message"@ != "data"@,
{
    reveal_strlit("id");
    reveal_strlit("jsonrpc");
    reveal_strlit("method");
    reveal_strlit("params");
    reveal_strlit("result");
    reveal_strlit("error");
    reveal_strlit("code");
    reveal_strlit("message");
    reveal_strlit("data");
    assert("id"@.len() == 2 && "id"@[0] == 'i');
    assert("jsonrpc"@.len() == 7 && "jsonrpc"@[0] == 'j');
    assert("method"@.len() == 6 && "method"@[0] == 'm');
    assert("params"@.len() == 6 && "params"@[0] == 'p');
    assert("result"@.len() == 6 && "result"@[0] == 'r');
    assert("error"@.len() == 5 && "error"@[0] == 'e');
    assert("code"@.len() == 4 && "code"@[0] == 'c');
    assert("message"@.len() == 7 && "message"@[0] == 'm');
    assert("data"@.len() == 4 && "data"@[0] == 'd');
}

proof fn lemma_field_of_step(all: Seq<(String, Json)>, n: int, key: Seq<char>)
    requires
        0 <= n < all.len(),
    ensures
        field_of(all.skip(n), key) == (if all[n].0@ == key {
            Some(all[n].1)
        } else {
            field_of(all.skip(n + 1), key)
        }),
{
    assert(all.skip(n).drop_first() =~= all.skip(n + 1));
}

/// Splits the members of an object into those that the protocol reads.
pub fn members(fields: Vec<(String, Json)>) -> (r: Members)
    ensures
        members_of(fields@, r),
{
    let k_id = String::from_str("id");
    let k_jsonrpc = String::from_str("jsonrpc");
    let k_method = String::from_str("method");
    let k_params = String::from_str("params");
    let k_result = String::from_str("result");
    let k_error = String::from_str("error");
    let k_code = String::from_str("code");
    let k_message = String::from_str("message");
    let k_data = String::from_str("data");
    let ghost all = fields@;
    let mut rest = fields;
    let mut r = Members {
        id: None,
        jsonrpc: None,
        method: None,
        params: None,
        result: None,
        error: None,
        code: None,
        message: None,
        data: None,
    };
    proof {
        assert(all.skip(all.len() as int) =~= Seq::<(String, Json)>::empty());
    }
    while rest.len() > 0
        invariant
            rest@ == all.take(rest.len() as int),
            rest.len() <= all.len(),
            members_of(all.skip(rest.len() as int), r),
            k_id@ == "id"@,
            k_jsonrpc@ == "jsonrpc"@,
            k_method@ == "method"@,
            k_params@ == "params"@,
            k_result@ == "result"@,
            k_error@ == "error"@,
            k_code@ == "code"@,
            k_message@ == "message"@,
            k_data@ == "data"@,
        decreases rest.len(),
    {
        let ghost n = (rest.len() - 1) as int;
        let (k, v) = rest.pop().unwrap();
        proof {
            assert(all[n] == (k, v));
            assert(rest@ =~= all.take(n));
            lemma_field_of_step(all, n, "id"@);
            lemma_field_of_step(all, n, "jsonrpc"@);
            lemma_field_of_step(all, n, "method"@);
            lemma_field_of_step(all, n, "params"@);
            lemma_field_of_step(all, n, "result"@);
            lemma_field_of_step(all, n, "error"@);
            lemma_field_of_step(all, n, "code"@);
            lemma_field_of_step(all, n, "message"@);
            lemma_field_of_step(all, n, "data"@);
            lemma_keys_distinct();
        }
        if k == k_id {
            r.id = Some(v);
        } else if k == k_jsonrpc {
            r.jsonrpc = Some(v);
        } else if k == k_method {
            r.method = Some(v);
        } else if k == k_params {
            r.params = Some(v);
        } else if k == k_result {
            r.result = Some(v);
        } else if k == k_error {
            r.error = Some(v);
        } else if k == k_code {
            r.code = Some(v);
        } else if k == k_message {
            r.message = Some(v);
        } else if k == k_data {
            r.data = Some(v);
        }
    }
    assert(all.skip(0) =~= all);
    r
}

/// The value of the first member of `fields` named `key`, by reference.
pub fn find_member<'a>(fields: &'a Vec<(String, Json)>, key: &str) -> (r: Option<&'a Json>)
    ensures
        r is Some <==> field_of(fields@, key@) is Some,
        r is Some ==> *r->0 == field_of(fields@, key@)->0,
{
    let wanted = String::from_str(key);
    let mut i: usize = 0;
    proof {
        assert(fields@.skip(0) =~= fields@);
    }
    while i < fields.len()
        invariant
            i <= fields.len(),
            wanted@ == key@,
            field_of(fields@.skip(i as int), key@) == field_of(fields@, key@),
        decreases fields.len() - i,
    {
        proof {
            lemma_field_of_step(fields@, i as int, key@);
        }
        if fields[i].0 == wanted {
            return Some(&fields[i].1);
        }
        i = i + 1;
    }
    proof {
        assert(fields@.skip(i as int).len() == 0);
    }
    None
}

} // verus!
