use vstd::prelude::*;
use vstd::string::StringExecFns;

verus! {

/// The bytes of the request line naming the root resource:
/// `GET / HTTP/1.1\r\n`.
pub open spec fn spec_root_request_line() -> Seq<u8> {
    seq![
        71u8, 69u8, 84u8, 32u8, 47u8, 32u8, 72u8, 84u8, 84u8, 80u8, 47u8, 49u8, 46u8, 49u8, 13u8,
        10u8,
    ]
}

/// Whether a request buffer asks for the root resource: it starts,
/// byte for byte, with the root request line.
pub open spec fn spec_is_root_request(buffer: Seq<u8>) -> bool {
    buffer.len() >= spec_root_request_line().len() && buffer.subrange(
        0,
        spec_root_request_line().len() as int,
    ) == spec_root_request_line()
}

/// The root request line, as bytes a caller can hold or send.
pub fn root_request_line() -> (v: Vec<u8>)
    ensures
        v@ == spec_root_request_line(),
{
    let mut v: Vec<u8> = Vec::with_capacity(16);
    v.push(71u8);
    v.push(69u8);
    v.push(84u8);
    v.push(32u8);
    v.push(47u8);
    v.push(32u8);
    v.push(72u8);
    v.push(84u8);
    v.push(84u8);
    v.push(80u8);
    v.push(47u8);
    v.push(49u8);
    v.push(46u8);
    v.push(49u8);
    v.push(13u8);
    v.push(10u8);
    proof {
        assert(v@ =~= spec_root_request_line());
    }
    v
}

/// Decide whether the buffer read from a connection is a request for the
/// root resource.
pub fn is_root_request(buffer: &[u8]) -> (b: bool)
    ensures
        b == spec_is_root_request(buffer@),
{
    let line = root_request_line();
    if buffer.len() < line.len() {
        return false;
    }
    let mut i: usize = 0;
    while i < line.len()
        invariant
            i <= line@.len(),
            line@ == spec_root_request_line(),
            buffer@.len() >= line@.len(),
            forall|k: int| 0 <= k < i ==> buffer@[k] == line@[k],
        decreases line@.len() - i,
    {
        if buffer[i] != line[i] {
            proof {
                assert(buffer@.subrange(0, line@.len() as int)[i as int] == buffer@[i as int]);
            }
            return false;
        }
        i = i + 1;
    }
    proof {
        assert(buffer@.subrange(0, line@.len() as int) =~= line@);
    }
    true
}

/// Choose the status line and the name of the file whose contents answer the
/// request: a root request is served `hello.html` under a success status,
/// anything else `404.html` under a not-found status.
pub fn choose_response(buffer: &[u8]) -> (r: (&'static str, &'static str))
    ensures
        spec_is_root_request(buffer@) ==> r.0@ == "HTTP/1.1 200 OK\r\n\r\n"@ && r.1@
            == "hello.html"@,
        !spec_is_root_request(buffer@) ==> r.0@ == "HTTP/1.1 404 NOT FOUND\r\n\r\n"@ && r.1@
            == "404.html"@,
{
    if is_root_request(buffer) {
        ("HTTP/1.1 200 OK\r\n\r\n", "hello.html")
    } else {
        ("HTTP/1.1 404 NOT FOUND\r\n\r\n", "404.html")
    }
}

/// The full response: the status line followed at once by the file contents.
pub fn build_response(status_line: &str, contents: &str) -> (r: String)
    ensures
        r@ == status_line@ + contents@,
{
    let mut r = status_line.to_owned();
    r.append(contents);
    r
}

} // verus!
