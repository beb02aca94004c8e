//! The wire envelope: a single-key JSON object that maps the method tag to
//! the method's argument value (one argument directly, several as an array).

use vstd::prelude::*;

verus! {

/// ASCII digits of `n` in base ten, most significant first.
pub open spec fn decimal(n: nat) -> Seq<u8>
    decreases n,
{
    if n < 10 {
        seq![(48 + n) as u8]
    } else {
        decimal(n / 10).push((48 + n % 10) as u8)
    }
}

/// The comma-separated decimal numbers of a byte sequence.
pub open spec fn json_items(v: Seq<u8>) -> Seq<u8>
    decreases v.len(),
{
    if v.len() == 0 {
        Seq::empty()
    } else if v.len() == 1 {
        decimal(v[0] as nat)
    } else {
        json_items(v.drop_last()) + seq![44u8] + decimal(v.last() as nat)
    }
}

/// Compact JSON text of a byte sequence: an array of numbers.
pub open spec fn json_byte_array(v: Seq<u8>) -> Seq<u8> {
    seq![91u8] + json_items(v) + seq![93u8]
}

/// Relies on `serde_json::to_vec`: a `Vec<u8>` is written with the compact
/// formatter as `[`, the bytes in decimal separated by `,`, then `]`; writing
/// into a `Vec` cannot fail.
#[verifier::external_body]
fn json_of_bytes(v: &Vec<u8>) -> (r: Vec<u8>)
    ensures
        r@ == json_byte_array(v@),
{
    match serde_json::to_vec(v) {
        Ok(b) => b,
        Err(_) => Vec::new(),
    }
}

/// The methods of the signing interface.
#[derive(Clone, Copy, Debug, PartialEq, Eq, Structural)]
pub enum Method {
    Sign,
    Verify,
}

/// The tag under which a method travels: its exact name.
pub open spec fn method_tag(m: Method) -> Seq<u8> {
    match m {
        Method::Sign => seq![83u8, 105u8, 103u8, 110u8],
        Method::Verify => seq![86u8, 101u8, 114u8, 105u8, 102u8, 121u8],
    }
}

/// A tag can be framed only if it holds no quote character.
pub open spec fn tag_ok(t: Seq<u8>) -> bool {
    forall|i: int| 0 <= i < t.len() ==> t[i] != 34u8
}

/// The envelope `{"<tag>":<data>}`.
pub open spec fn frame(tag: Seq<u8>, data: Seq<u8>) -> Seq<u8> {
    seq![123u8, 34u8] + tag + seq![34u8, 58u8] + data + seq![125u8]
}

/// A call of the signing interface, closed over its methods so that a tag
/// can never travel with the arguments of another method.
#[derive(Clone, Debug)]
pub enum Call {
    Sign { message: Vec<u8> },
    Verify { message: Vec<u8>, signature: Vec<u8> },
}

pub open spec fn call_method(c: Call) -> Method {
    match c {
        Call::Sign { .. } => Method::Sign,
        Call::Verify { .. } => Method::Verify,
    }
}

/// The argument value of a call: one argument as itself, two as an array.
pub open spec fn call_data(c: Call) -> Seq<u8> {
    match c {
        Call::Sign { message } => json_byte_array(message@),
        Call::Verify { message, signature } => seq![91u8] + json_byte_array(message@) + seq![
            44u8,
        ] + json_byte_array(signature@) + seq![93u8],
    }
}

/// The bytes sent for a call.
pub open spec fn encoded(c: Call) -> Seq<u8> {
    frame(method_tag(call_method(c)), call_data(c))
}

/// The tag of a method, as bytes.
pub fn tag_bytes(m: Method) -> (r: Vec<u8>)
    ensures
        r@ == method_tag(m),
{
    let r = match m {
        Method::Sign => vec![83u8, 105u8, 103u8, 110u8],
        Method::Verify => vec![86u8, 101u8, 114u8, 105u8, 102u8, 121u8],
    };
    assert(r@ =~= method_tag(m));
    r
}

/// Appends `src` to `dst`.
fn push_all(dst: &mut Vec<u8>, src: &Vec<u8>)
    ensures
        final(dst)@ == old(dst)@ + src@,
{
    let mut i: usize = 0;
    while i < src.len()
        invariant
            i <= src@.len(),
            dst@ == old(dst)@ + src@.subrange(0, i as int),
        decreases src@.len() - i,
    {
        dst.push(src[i]);
        i = i + 1;
        assert(dst@ =~= old(dst)@ + src@.subrange(0, i as int));
    }
    assert(src@.subrange(0, src@.len() as int) =~= src@);
}

/// The bytes `b[lo..hi]` as a new vector.
fn copy_range(b: &Vec<u8>, lo: usize, hi: usize) -> (r: Vec<u8>)
    requires
        lo <= hi <= b@.len(),
    ensures
        r@ == b@.subrange(lo as int, hi as int),
{
    let mut r: Vec<u8> = Vec::new();
    let mut i: usize = lo;
    while i < hi
        invariant
            lo <= i <= hi <= b@.len(),
            r@ == b@.subrange(lo as int, i as int),
        decreases hi - i,
    {
        r.push(b[i]);
        i = i + 1;
        assert(r@ =~= b@.subrange(lo as int, i as int));
    }
    r
}

/// Frames `data` under `tag`.
pub fn encode_envelope(tag: &Vec<u8>, data: &Vec<u8>) -> (r: Vec<u8>)
    ensures
        r@ == frame(tag@, data@),
{
    let mut r: Vec<u8> = Vec::new();
    r.push(123u8);
    r.push(34u8);
    push_all(&mut r, tag);
    r.push(34u8);
    r.push(58u8);
    push_all(&mut r, data);
    r.push(125u8);
    assert(r@ =~= frame(tag@, data@));
    r
}

/// The argument value of a call, in JSON.
pub fn call_arguments(c: &Call) -> (r: Vec<u8>)
    ensures
        r@ == call_data(*c),
{
    match c {
        Call::Sign { message } => json_of_bytes(message),
        Call::Verify { message, signature } => {
            let mut r: Vec<u8> = Vec::new();
            r.push(91u8);
            let m = json_of_bytes(message);
            push_all(&mut r, &m);
            r.push(44u8);
            let s = json_of_bytes(signature);
            push_all(&mut r, &s);
            r.push(93u8);
            assert(r@ =~= call_data(*c));
            r
        },
    }
}

/// The request body of a call: its method's tag mapped to its arguments.
pub fn encode_call(c: &Call) -> (r: Vec<u8>)
    ensures
        r@ == encoded(*c),
{
    let m = match c {
        Call::Sign { .. } => Method::Sign,
        Call::Verify { .. } => Method::Verify,
    };
    let tag = tag_bytes(m);
    let data = call_arguments(c);
    encode_envelope(&tag, &data)
}

/// Body of a `sign` call.
pub fn sign_request_body(message: Vec<u8>) -> (r: Vec<u8>)
    ensures
        r@ == frame(method_tag(Method::Sign), json_byte_array(message@)),
{
    let c = Call::Sign { message };
    encode_call(&c)
}

/// Body of a `verify` call.
pub fn verify_request_body(message: Vec<u8>, signature: Vec<u8>) -> (r: Vec<u8>)
    ensures
        r@ == encoded(Call::Verify { message, signature }),
{
    let c = Call::Verify { message, signature };
    encode_call(&c)
}


proof fn lemma_frame_facts(t: Seq<u8>, d: Seq<u8>)
    ensures
        frame(t, d).len() == (t.len() as int) + (d.len() as int) + 5,
        frame(t, d)[0] == 123u8,
        frame(t, d)[1] == 34u8,
        frame(t, d)[(t.len() as int) + (d.len() as int) + 4] == 125u8,
        frame(t, d)[2 + (t.len() as int)] == 34u8,
        frame(t, d)[3 + (t.len() as int)] == 58u8,
        forall|i: int| 0 <= i < (t.len() as int) ==> #[trigger] frame(t, d)[2 + i] == t[i],
        frame(t, d).subrange(2, 2 + (t.len() as int)) == t,
        frame(t, d).subrange(4 + (t.len() as int), 4 + (t.len() as int) + (d.len() as int)) == d,
{
    let f = frame(t, d);
    assert(f.subrange(2, 2 + (t.len() as int)) =~= t);
    assert(f.subrange(4 + (t.len() as int), 4 + (t.len() as int) + (d.len() as int)) =~= d);
}

/// An envelope names one tag and one data value: two quote-free tags that
/// frame to the same bytes are the same tag, with the same data.
pub proof fn lemma_frame_injective(t1: Seq<u8>, d1: Seq<u8>, t2: Seq<u8>, d2: Seq<u8>)
    requires
        tag_ok(t1),
        tag_ok(t2),
        frame(t1, d1) == frame(t2, d2),
    ensures
        t1 == t2,
        d1 == d2,
{
    lemma_frame_facts(t1, d1);
    lemma_frame_facts(t2, d2);
    if t1.len() < t2.len() {
        assert(frame(t2, d2)[2 + t1.len() as int] == t2[t1.len() as int]);
    } else if t2.len() < t1.len() {
        assert(frame(t1, d1)[2 + t2.len() as int] == t1[t2.len() as int]);
    }
}

/// Splits an envelope `{"<tag>":<data>}` into its tag and its data, the tag
/// ending at the first quote.
pub fn decode_envelope(b: &Vec<u8>) -> (r: Option<(Vec<u8>, Vec<u8>)>)
    ensures
        match r {
            Some((t, d)) => tag_ok(t@) && b@ == frame(t@, d@),
            None => forall|t: Seq<u8>, d: Seq<u8>| tag_ok(t) ==> b@ != frame(t, d),
        },
{
    let n = b.len();
    if n < 5 || b[0] != 123u8 || b[1] != 34u8 || b[n - 1] != 125u8 {
        proof {
            assert forall|t: Seq<u8>, d: Seq<u8>| tag_ok(t) implies b@ != frame(t, d) by {
                lemma_frame_facts(t, d);
            }
        }
        return None;
    }
    let mut q: usize = 2;
    while q < n && b[q] != 34u8
        invariant
            2 <= q <= n,
            n == b@.len(),
            forall|i: int| 2 <= i < q ==> b@[i] != 34u8,
        decreases n - q,
    {
        q = q + 1;
    }
    if q >= n - 2 || b[q + 1] != 58u8 {
        proof {
            assert forall|t: Seq<u8>, d: Seq<u8>| tag_ok(t) implies b@ != frame(t, d) by {
                lemma_frame_facts(t, d);
                if b@ == frame(t, d) {
                    if q < 2 + t.len() as int {
                        assert(frame(t, d)[2 + (q - 2)] == t[q - 2]);
                    } else if q > 2 + t.len() as int {
                        assert(b@[2 + t.len() as int] == 34u8);
                    }
                }
            }
        }
        return None;
    }
    let tag = copy_range(b, 2, q);
    let data = copy_range(b, q + 2, n - 1);
    proof {
        assert forall|i: int| 0 <= i < tag@.len() implies tag@[i] != 34u8 by {
            assert(tag@[i] == b@[2 + i]);
        }
        assert(b@ =~= frame(tag@, data@));
    }
    Some((tag, data))
}

/// Reads a tag back as a method.
pub fn method_of_tag(t: &Vec<u8>) -> (r: Option<Method>)
    ensures
        match r {
            Some(m) => method_tag(m) == t@,
            None => forall|m: Method| method_tag(m) != t@,
        },
{
    let sign = tag_bytes(Method::Sign);
    let verify = tag_bytes(Method::Verify);
    if bytes_equal(t, &sign) {
        Some(Method::Sign)
    } else if bytes_equal(t, &verify) {
        Some(Method::Verify)
    } else {
        None
    }
}

fn bytes_equal(a: &Vec<u8>, b: &Vec<u8>) -> (r: bool)
    ensures
        r == (a@ == b@),
{
    if a.len() != b.len() {
        return false;
    }
    let mut i: usize = 0;
    while i < a.len()
        invariant
            a@.len() == b@.len(),
            i <= a@.len(),
            forall|j: int| 0 <= j < i ==> a@[j] == b@[j],
        decreases a@.len() - i,
    {
        if a[i] != b[i] {
            return false;
        }
        i = i + 1;
    }
    assert(a@ =~= b@);
    true
}

/// Every method's tag can be framed.
pub proof fn lemma_method_tags_ok(m: Method)
    ensures
        tag_ok(method_tag(m)),
{
}

/// Decoding what was encoded gives back the call's method and its argument
/// value: whenever a quote-free tag and some data frame to the encoded bytes
/// of `c`, they are `c`'s tag and `c`'s arguments.
pub proof fn lemma_envelope_round_trip(c: Call, t: Seq<u8>, d: Seq<u8>)
    requires
        tag_ok(t),
        frame(t, d) == encoded(c),
    ensures
        t == method_tag(call_method(c)),
        d == call_data(c),
{
    lemma_method_tags_ok(call_method(c));
    lemma_frame_injective(t, d, method_tag(call_method(c)), call_data(c));
}

} // verus!
