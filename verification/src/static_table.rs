//! The static table of RFC 7541 Appendix A: 61 fixed `(name, value)`
//! entries addressed by indices 1 through 61.
//!
//! `static_entry_name`/`static_entry_value` are the table itself;
//! `static_find_name` and `static_find_full` specify lookup by name and by
//! `(name, value)` pair, returning the smallest (canonical) matching index.
//! The executable lookups are verified against them.

use vstd::prelude::*;

use crate::header::{ascii_bytes, name_is};

verus! {

/// Number of entries in the static table.
pub const STATIC_TABLE_LEN: usize = 61;

/// The name of static entry `i` (1-based, `1 <= i <= 61`).
pub open spec fn static_entry_name(i: int) -> Seq<u8> {
    if i == 1 {
        ascii_bytes(":authority"@)
    } else if i == 2 {
        ascii_bytes(":method"@)
    } else if i == 3 {
        ascii_bytes(":method"@)
    } else if i == 4 {
        ascii_bytes(":path"@)
    } else if i == 5 {
        ascii_bytes(":path"@)
    } else if i == 6 {
        ascii_bytes(":scheme"@)
    } else if i == 7 {
        ascii_bytes(":scheme"@)
    } else if i == 8 {
        ascii_bytes(":status"@)
    } else if i == 9 {
        ascii_bytes(":status"@)
    } else if i == 10 {
        ascii_bytes(":status"@)
    } else if i == 11 {
        ascii_bytes(":status"@)
    } else if i == 12 {
        ascii_bytes(":status"@)
    } else if i == 13 {
        ascii_bytes(":status"@)
    } else if i == 14 {
        ascii_bytes(":status"@)
    } else if i == 15 {
        ascii_bytes("accept-charset"@)
    } else if i == 16 {
        ascii_bytes("accept-encoding"@)
    } else if i == 17 {
        ascii_bytes("accept-language"@)
    } else if i == 18 {
        ascii_bytes("accept-ranges"@)
    } else if i == 19 {
        ascii_bytes("accept"@)
    } else if i == 20 {
        ascii_bytes("access-control-allow-origin"@)
    } else if i == 21 {
        ascii_bytes("age"@)
    } else if i == 22 {
        ascii_bytes("allow"@)
    } else if i == 23 {
        ascii_bytes("authorization"@)
    } else if i == 24 {
        ascii_bytes("cache-control"@)
    } else if i == 25 {
        ascii_bytes("content-disposition"@)
    } else if i == 26 {
        ascii_bytes("content-encoding"@)
    } else if i == 27 {
        ascii_bytes("content-language"@)
    } else if i == 28 {
        ascii_bytes("content-length"@)
    } else if i == 29 {
        ascii_bytes("content-location"@)
    } else if i == 30 {
        ascii_bytes("content-range"@)
    } else if i == 31 {
        ascii_bytes("content-type"@)
    } else if i == 32 {
        ascii_bytes("cookie"@)
    } else if i == 33 {
        ascii_bytes("date"@)
    } else if i == 34 {
        ascii_bytes("etag"@)
    } else if i == 35 {
        ascii_bytes("expect"@)
    } else if i == 36 {
        ascii_bytes("expires"@)
    } else if i == 37 {
        ascii_bytes("from"@)
    } else if i == 38 {
        ascii_bytes("host"@)
    } else if i == 39 {
        ascii_bytes("if-match"@)
    } else if i == 40 {
        ascii_bytes("if-modified-since"@)
    } else if i == 41 {
        ascii_bytes("if-none-match"@)
    } else if i == 42 {
        ascii_bytes("if-range"@)
    } else if i == 43 {
        ascii_bytes("if-unmodified-since"@)
    } else if i == 44 {
        ascii_bytes("last-modified"@)
    } else if i == 45 {
        ascii_bytes("link"@)
    } else if i == 46 {
        ascii_bytes("location"@)
    } else if i == 47 {
        ascii_bytes("max-forwards"@)
    } else if i == 48 {
        ascii_bytes("proxy-authenticate"@)
    } else if i == 49 {
        ascii_bytes("proxy-authorization"@)
    } else if i == 50 {
        ascii_bytes("range"@)
    } else if i == 51 {
        ascii_bytes("referer"@)
    } else if i == 52 {
        ascii_bytes("refresh"@)
    } else if i == 53 {
        ascii_bytes("retry-after"@)
    } else if i == 54 {
        ascii_bytes("server"@)
    } else if i == 55 {
        ascii_bytes("set-cookie"@)
    } else if i == 56 {
        ascii_bytes("strict-transport-security"@)
    } else if i == 57 {
        ascii_bytes("transfer-encoding"@)
    } else if i == 58 {
        ascii_bytes("user-agent"@)
    } else if i == 59 {
        ascii_bytes("vary"@)
    } else if i == 60 {
        ascii_bytes("via"@)
    } else if i == 61 {
        ascii_bytes("www-authenticate"@)
    } else {
        Seq::empty()
    }
}

/// The value of static entry `i` (1-based, `1 <= i <= 61`); most entries
/// carry the empty value.
pub open spec fn static_entry_value(i: int) -> Seq<u8> {
    if i == 2 {
        ascii_bytes("GET"@)
    } else if i == 3 {
        ascii_bytes("POST"@)
    } else if i == 4 {
        ascii_bytes("/"@)
    } else if i == 5 {
        ascii_bytes("/index.html"@)
    } else if i == 6 {
        ascii_bytes("http"@)
    } else if i == 7 {
        ascii_bytes("https"@)
    } else if i == 8 {
        ascii_bytes("200"@)
    } else if i == 9 {
        ascii_bytes("204"@)
    } else if i == 10 {
        ascii_bytes("206"@)
    } else if i == 11 {
        ascii_bytes("304"@)
    } else if i == 12 {
        ascii_bytes("400"@)
    } else if i == 13 {
        ascii_bytes("404"@)
    } else if i == 14 {
        ascii_bytes("500"@)
    } else if i == 16 {
        ascii_bytes("gzip, deflate"@)
    } else {
        Seq::empty()
    }
}

/// The canonical static index for a header name: the smallest static index
/// whose entry has that name.
pub open spec fn static_find_name(n: Seq<u8>) -> Option<usize> {
    if n == ascii_bytes(":authority"@) {
        Some(1usize)
    } else if n == ascii_bytes(":method"@) {
        Some(2usize)
    } else if n == ascii_bytes(":path"@) {
        Some(4usize)
    } else if n == ascii_bytes(":scheme"@) {
        Some(6usize)
    } else if n == ascii_bytes(":status"@) {
        Some(8usize)
    } else if n == ascii_bytes("accept-charset"@) {
        Some(15usize)
    } else if n == ascii_bytes("accept-encoding"@) {
        Some(16usize)
    } else if n == ascii_bytes("accept-language"@) {
        Some(17usize)
    } else if n == ascii_bytes("accept-ranges"@) {
        Some(18usize)
    } else if n == ascii_bytes("accept"@) {
        Some(19usize)
    } else if n == ascii_bytes("access-control-allow-origin"@) {
        Some(20usize)
    } else if n == ascii_bytes("age"@) {
        Some(21usize)
    } else if n == ascii_bytes("allow"@) {
        Some(22usize)
    } else if n == ascii_bytes("authorization"@) {
        Some(23usize)
    } else if n == ascii_bytes("cache-control"@) {
        Some(24usize)
    } else if n == ascii_bytes("content-disposition"@) {
        Some(25usize)
    } else if n == ascii_bytes("content-encoding"@) {
        Some(26usize)
    } else if n == ascii_bytes("content-language"@) {
        Some(27usize)
    } else if n == ascii_bytes("content-length"@) {
        Some(28usize)
    } else if n == ascii_bytes("content-location"@) {
        Some(29usize)
    } else if n == ascii_bytes("content-range"@) {
        Some(30usize)
    } else if n == ascii_bytes("content-type"@) {
        Some(31usize)
    } else if n == ascii_bytes("cookie"@) {
        Some(32usize)
    } else if n == ascii_bytes("date"@) {
        Some(33usize)
    } else if n == ascii_bytes("etag"@) {
        Some(34usize)
    } else if n == ascii_bytes("expect"@) {
        Some(35usize)
    } else if n == ascii_bytes("expires"@) {
        Some(36usize)
    } else if n == ascii_bytes("from"@) {
        Some(37usize)
    } else if n == ascii_bytes("host"@) {
        Some(38usize)
    } else if n == ascii_bytes("if-match"@) {
        Some(39usize)
    } else if n == ascii_bytes("if-modified-since"@) {
        Some(40usize)
    } else if n == ascii_bytes("if-none-match"@) {
        Some(41usize)
    } else if n == ascii_bytes("if-range"@) {
        Some(42usize)
    } else if n == ascii_bytes("if-unmodified-since"@) {
        Some(43usize)
    } else if n == ascii_bytes("last-modified"@) {
        Some(44usize)
    } else if n == ascii_bytes("link"@) {
        Some(45usize)
    } else if n == ascii_bytes("location"@) {
        Some(46usize)
    } else if n == ascii_bytes("max-forwards"@) {
        Some(47usize)
    } else if n == ascii_bytes("proxy-authenticate"@) {
        Some(48usize)
    } else if n == ascii_bytes("proxy-authorization"@) {
        Some(49usize)
    } else if n == ascii_bytes("range"@) {
        Some(50usize)
    } else if n == ascii_bytes("referer"@) {
        Some(51usize)
    } else if n == ascii_bytes("refresh"@) {
        Some(52usize)
    } else if n == ascii_bytes("retry-after"@) {
        Some(53usize)
    } else if n == ascii_bytes("server"@) {
        Some(54usize)
    } else if n == ascii_bytes("set-cookie"@) {
        Some(55usize)
    } else if n == ascii_bytes("strict-transport-security"@) {
        Some(56usize)
    } else if n == ascii_bytes("transfer-encoding"@) {
        Some(57usize)
    } else if n == ascii_bytes("user-agent"@) {
        Some(58usize)
    } else if n == ascii_bytes("vary"@) {
        Some(59usize)
    } else if n == ascii_bytes("via"@) {
        Some(60usize)
    } else if n == ascii_bytes("www-authenticate"@) {
        Some(61usize)
    } else {
        None
    }
}

/// The static index fully matching a `(name, value)` pair, if any.
pub open spec fn static_find_full(n: Seq<u8>, v: Seq<u8>) -> Option<usize> {
    if n == ascii_bytes(":authority"@) {
        if v.len() == 0 {
            Some(1usize)
        } else {
            None
        }
    } else if n == ascii_bytes(":method"@) {
        if v == ascii_bytes("GET"@) {
            Some(2usize)
        } else if v == ascii_bytes("POST"@) {
            Some(3usize)
        } else {
            None
        }
    } else if n == ascii_bytes(":path"@) {
        if v == ascii_bytes("/"@) {
            Some(4usize)
        } else if v == ascii_bytes("/index.html"@) {
            Some(5usize)
        } else {
            None
        }
    } else if n == ascii_bytes(":scheme"@) {
        if v == ascii_bytes("http"@) {
            Some(6usize)
        } else if v == ascii_bytes("https"@) {
            Some(7usize)
        } else {
            None
        }
    } else if n == ascii_bytes(":status"@) {
        if v == ascii_bytes("200"@) {
            Some(8usize)
        } else if v == ascii_bytes("204"@) {
            Some(9usize)
        } else if v == ascii_bytes("206"@) {
            Some(10usize)
        } else if v == ascii_bytes("304"@) {
            Some(11usize)
        } else if v == ascii_bytes("400"@) {
            Some(12usize)
        } else if v == ascii_bytes("404"@) {
            Some(13usize)
        } else if v == ascii_bytes("500"@) {
            Some(14usize)
        } else {
            None
        }
    } else if n == ascii_bytes("accept-charset"@) {
        if v.len() == 0 {
            Some(15usize)
        } else {
            None
        }
    } else if n == ascii_bytes("accept-encoding"@) {
        if v == ascii_bytes("gzip, deflate"@) {
            Some(16usize)
        } else {
            None
        }
    } else if n == ascii_bytes("accept-language"@) {
        if v.len() == 0 {
            Some(17usize)
        } else {
            None
        }
    } else if n == ascii_bytes("accept-ranges"@) {
        if v.len() == 0 {
            Some(18usize)
        } else {
            None
        }
    } else if n == ascii_bytes("accept"@) {
        if v.len() == 0 {
            Some(19usize)
        } else {
            None
        }
    } else if n == ascii_bytes("access-control-allow-origin"@) {
        if v.len() == 0 {
            Some(20usize)
        } else {
            None
        }
    } else if n == ascii_bytes("age"@) {
        if v.len() == 0 {
            Some(21usize)
        } else {
            None
        }
    } else if n == ascii_bytes("allow"@) {
        if v.len() == 0 {
            Some(22usize)
        } else {
            None
        }
    } else if n == ascii_bytes("authorization"@) {
        if v.len() == 0 {
            Some(23usize)
        } else {
            None
        }
    } else if n == ascii_bytes("cache-control"@) {
        if v.len() == 0 {
            Some(24usize)
        } else {
            None
        }
    } else if n == ascii_bytes("content-disposition"@) {
        if v.len() == 0 {
            Some(25usize)
        } else {
            None
        }
    } else if n == ascii_bytes("content-encoding"@) {
        if v.len() == 0 {
            Some(26usize)
        } else {
            None
        }
    } else if n == ascii_bytes("content-language"@) {
        if v.len() == 0 {
            Some(27usize)
        } else {
            None
        }
    } else if n == ascii_bytes("content-length"@) {
        if v.len() == 0 {
            Some(28usize)
        } else {
            None
        }
    } else if n == ascii_bytes("content-location"@) {
        if v.len() == 0 {
            Some(29usize)
        } else {
            None
        }
    } else if n == ascii_bytes("content-range"@) {
        if v.len() == 0 {
            Some(30usize)
        } else {
            None
        }
    } else if n == ascii_bytes("content-type"@) {
        if v.len() == 0 {
            Some(31usize)
        } else {
            None
        }
    } else if n == ascii_bytes("cookie"@) {
        if v.len() == 0 {
            Some(32usize)
        } else {
            None
        }
    } else if n == ascii_bytes("date"@) {
        if v.len() == 0 {
            Some(33usize)
        } else {
            None
        }
    } else if n == ascii_bytes("etag"@) {
        if v.len() == 0 {
            Some(34usize)
        } else {
            None
        }
    } else if n == ascii_bytes("expect"@) {
        if v.len() == 0 {
            Some(35usize)
        } else {
            None
        }
    } else if n == ascii_bytes("expires"@) {
        if v.len() == 0 {
            Some(36usize)
        } else {
            None
        }
    } else if n == ascii_bytes("from"@) {
        if v.len() == 0 {
            Some(37usize)
        } else {
            None
        }
    } else if n == ascii_bytes("host"@) {
        if v.len() == 0 {
            Some(38usize)
        } else {
            None
        }
    } else if n == ascii_bytes("if-match"@) {
        if v.len() == 0 {
            Some(39usize)
        } else {
            None
        }
    } else if n == ascii_bytes("if-modified-since"@) {
        if v.len() == 0 {
            Some(40usize)
        } else {
            None
        }
    } else if n == ascii_bytes("if-none-match"@) {
        if v.len() == 0 {
            Some(41usize)
        } else {
            None
        }
    } else if n == ascii_bytes("if-range"@) {
        if v.len() == 0 {
            Some(42usize)
        } else {
            None
        }
    } else if n == ascii_bytes("if-unmodified-since"@) {
        if v.len() == 0 {
            Some(43usize)
        } else {
            None
        }
    } else if n == ascii_bytes("last-modified"@) {
        if v.len() == 0 {
            Some(44usize)
        } else {
            None
        }
    } else if n == ascii_bytes("link"@) {
        if v.len() == 0 {
            Some(45usize)
        } else {
            None
        }
    } else if n == ascii_bytes("location"@) {
        if v.len() == 0 {
            Some(46usize)
        } else {
            None
        }
    } else if n == ascii_bytes("max-forwards"@) {
        if v.len() == 0 {
            Some(47usize)
        } else {
            None
        }
    } else if n == ascii_bytes("proxy-authenticate"@) {
        if v.len() == 0 {
            Some(48usize)
        } else {
            None
        }
    } else if n == ascii_bytes("proxy-authorization"@) {
        if v.len() == 0 {
            Some(49usize)
        } else {
            None
        }
    } else if n == ascii_bytes("range"@) {
        if v.len() == 0 {
            Some(50usize)
        } else {
            None
        }
    } else if n == ascii_bytes("referer"@) {
        if v.len() == 0 {
            Some(51usize)
        } else {
            None
        }
    } else if n == ascii_bytes("refresh"@) {
        if v.len() == 0 {
            Some(52usize)
        } else {
            None
        }
    } else if n == ascii_bytes("retry-after"@) {
        if v.len() == 0 {
            Some(53usize)
        } else {
            None
        }
    } else if n == ascii_bytes("server"@) {
        if v.len() == 0 {
            Some(54usize)
        } else {
            None
        }
    } else if n == ascii_bytes("set-cookie"@) {
        if v.len() == 0 {
            Some(55usize)
        } else {
            None
        }
    } else if n == ascii_bytes("strict-transport-security"@) {
        if v.len() == 0 {
            Some(56usize)
        } else {
            None
        }
    } else if n == ascii_bytes("transfer-encoding"@) {
        if v.len() == 0 {
            Some(57usize)
        } else {
            None
        }
    } else if n == ascii_bytes("user-agent"@) {
        if v.len() == 0 {
            Some(58usize)
        } else {
            None
        }
    } else if n == ascii_bytes("vary"@) {
        if v.len() == 0 {
            Some(59usize)
        } else {
            None
        }
    } else if n == ascii_bytes("via"@) {
        if v.len() == 0 {
            Some(60usize)
        } else {
            None
        }
    } else if n == ascii_bytes("www-authenticate"@) {
        if v.len() == 0 {
            Some(61usize)
        } else {
            None
        }
    } else {
        None
    }
}


/// A discriminator that tells the table's byte strings apart: length, first
/// and last byte.
spec fn byte_key(s: Seq<u8>) -> int {
    if s.len() == 0 {
        -1
    } else {
        s.len() * 1000000 + s[0] * 1000 + s[s.len() - 1]
    }
}

/// Looking a static entry's own `(name, value)` pair up finds exactly that
/// entry: the 61 pairs are pairwise distinct and the cascade returns the
/// canonical index.
pub proof fn lemma_static_self_lookup(i: int)
    requires
        1 <= i <= 61,
    ensures
        static_find_full(static_entry_name(i), static_entry_value(i)) == Some(i as usize),
{
    reveal_strlit(":authority");
    reveal_strlit(":method");
    reveal_strlit(":path");
    reveal_strlit(":scheme");
    reveal_strlit(":status");
    reveal_strlit("accept-charset");
    reveal_strlit("accept-encoding");
    reveal_strlit("accept-language");
    reveal_strlit("accept-ranges");
    reveal_strlit("accept");
    reveal_strlit("access-control-allow-origin");
    reveal_strlit("age");
    reveal_strlit("allow");
    reveal_strlit("authorization");
    reveal_strlit("cache-control");
    reveal_strlit("content-disposition");
    reveal_strlit("content-encoding");
    reveal_strlit("content-language");
    reveal_strlit("content-length");
    reveal_strlit("content-location");
    reveal_strlit("content-range");
    reveal_strlit("content-type");
    reveal_strlit("cookie");
    reveal_strlit("date");
    reveal_strlit("etag");
    reveal_strlit("expect");
    reveal_strlit("expires");
    reveal_strlit("from");
    reveal_strlit("host");
    reveal_strlit("if-match");
    reveal_strlit("if-modified-since");
    reveal_strlit("if-none-match");
    reveal_strlit("if-range");
    reveal_strlit("if-unmodified-since");
    reveal_strlit("last-modified");
    reveal_strlit("link");
    reveal_strlit("location");
    reveal_strlit("max-forwards");
    reveal_strlit("proxy-authenticate");
    reveal_strlit("proxy-authorization");
    reveal_strlit("range");
    reveal_strlit("referer");
    reveal_strlit("refresh");
    reveal_strlit("retry-after");
    reveal_strlit("server");
    reveal_strlit("set-cookie");
    reveal_strlit("strict-transport-security");
    reveal_strlit("transfer-encoding");
    reveal_strlit("user-agent");
    reveal_strlit("vary");
    reveal_strlit("via");
    reveal_strlit("www-authenticate");
    reveal_strlit("GET");
    reveal_strlit("POST");
    reveal_strlit("/");
    reveal_strlit("/index.html");
    reveal_strlit("http");
    reveal_strlit("https");
    reveal_strlit("200");
    reveal_strlit("204");
    reveal_strlit("206");
    reveal_strlit("304");
    reveal_strlit("400");
    reveal_strlit("404");
    reveal_strlit("500");
    reveal_strlit("gzip, deflate");
    assert(byte_key(ascii_bytes(":authority"@)) == 10058121);
    assert(byte_key(ascii_bytes(":method"@)) == 7058100);
    assert(byte_key(ascii_bytes(":path"@)) == 5058104);
    assert(byte_key(ascii_bytes(":scheme"@)) == 7058101);
    assert(byte_key(ascii_bytes(":status"@)) == 7058115);
    assert(byte_key(ascii_bytes("accept-charset"@)) == 14097116);
    assert(byte_key(ascii_bytes("accept-encoding"@)) == 15097103);
    assert(byte_key(ascii_bytes("accept-language"@)) == 15097101);
    assert(byte_key(ascii_bytes("accept-ranges"@)) == 13097115);
    assert(byte_key(ascii_bytes("accept"@)) == 6097116);
    assert(byte_key(ascii_bytes("access-control-allow-origin"@)) == 27097110);
    assert(byte_key(ascii_bytes("age"@)) == 3097101);
    assert(byte_key(ascii_bytes("allow"@)) == 5097119);
    assert(byte_key(ascii_bytes("authorization"@)) == 13097110);
    assert(byte_key(ascii_bytes("cache-control"@)) == 13099108);
    assert(byte_key(ascii_bytes("content-disposition"@)) == 19099110);
    assert(byte_key(ascii_bytes("content-encoding"@)) == 16099103);
    assert(byte_key(ascii_bytes("content-language"@)) == 16099101);
    assert(byte_key(ascii_bytes("content-length"@)) == 14099104);
    assert(byte_key(ascii_bytes("content-location"@)) == 16099110);
    assert(byte_key(ascii_bytes("content-range"@)) == 13099101);
    assert(byte_key(ascii_bytes("content-type"@)) == 12099101);
    assert(byte_key(ascii_bytes("cookie"@)) == 6099101);
    assert(byte_key(ascii_bytes("date"@)) == 4100101);
    assert(byte_key(ascii_bytes("etag"@)) == 4101103);
    assert(byte_key(ascii_bytes("expect"@)) == 6101116);
    assert(byte_key(ascii_bytes("expires"@)) == 7101115);
    assert(byte_key(ascii_bytes("from"@)) == 4102109);
    assert(byte_key(ascii_bytes("host"@)) == 4104116);
    assert(byte_key(ascii_bytes("if-match"@)) == 8105104);
    assert(byte_key(ascii_bytes("if-modified-since"@)) == 17105101);
    assert(byte_key(ascii_bytes("if-none-match"@)) == 13105104);
    assert(byte_key(ascii_bytes("if-range"@)) == 8105101);
    assert(byte_key(ascii_bytes("if-unmodified-since"@)) == 19105101);
    assert(byte_key(ascii_bytes("last-modified"@)) == 13108100);
    assert(byte_key(ascii_bytes("link"@)) == 4108107);
    assert(byte_key(ascii_bytes("location"@)) == 8108110);
    assert(byte_key(ascii_bytes("max-forwards"@)) == 12109115);
    assert(byte_key(ascii_bytes("proxy-authenticate"@)) == 18112101);
    assert(byte_key(ascii_bytes("proxy-authorization"@)) == 19112110);
    assert(byte_key(ascii_bytes("range"@)) == 5114101);
    assert(byte_key(ascii_bytes("referer"@)) == 7114114);
    assert(byte_key(ascii_bytes("refresh"@)) == 7114104);
    assert(byte_key(ascii_bytes("retry-after"@)) == 11114114);
    assert(byte_key(ascii_bytes("server"@)) == 6115114);
    assert(byte_key(ascii_bytes("set-cookie"@)) == 10115101);
    assert(byte_key(ascii_bytes("strict-transport-security"@)) == 25115121);
    assert(byte_key(ascii_bytes("transfer-encoding"@)) == 17116103);
    assert(byte_key(ascii_bytes("user-agent"@)) == 10117116);
    assert(byte_key(ascii_bytes("vary"@)) == 4118121);
    assert(byte_key(ascii_bytes("via"@)) == 3118097);
    assert(byte_key(ascii_bytes("www-authenticate"@)) == 16119101);
    assert(byte_key(ascii_bytes("GET"@)) == 3071084);
    assert(byte_key(ascii_bytes("POST"@)) == 4080084);
    assert(byte_key(ascii_bytes("/"@)) == 1047047);
    assert(byte_key(ascii_bytes("/index.html"@)) == 11047108);
    assert(byte_key(ascii_bytes("http"@)) == 4104112);
    assert(byte_key(ascii_bytes("https"@)) == 5104115);
    assert(byte_key(ascii_bytes("200"@)) == 3050048);
    assert(byte_key(ascii_bytes("204"@)) == 3050052);
    assert(byte_key(ascii_bytes("206"@)) == 3050054);
    assert(byte_key(ascii_bytes("304"@)) == 3051052);
    assert(byte_key(ascii_bytes("400"@)) == 3052048);
    assert(byte_key(ascii_bytes("404"@)) == 3052052);
    assert(byte_key(ascii_bytes("500"@)) == 3053048);
    assert(byte_key(ascii_bytes("gzip, deflate"@)) == 13103101);
    assert(static_find_full(static_entry_name(1), static_entry_value(1)) == Some(1usize));
    assert(static_find_full(static_entry_name(2), static_entry_value(2)) == Some(2usize));
    assert(static_find_full(static_entry_name(3), static_entry_value(3)) == Some(3usize));
    assert(static_find_full(static_entry_name(4), static_entry_value(4)) == Some(4usize));
    assert(static_find_full(static_entry_name(5), static_entry_value(5)) == Some(5usize));
    assert(static_find_full(static_entry_name(6), static_entry_value(6)) == Some(6usize));
    assert(static_find_full(static_entry_name(7), static_entry_value(7)) == Some(7usize));
    assert(static_find_full(static_entry_name(8), static_entry_value(8)) == Some(8usize));
    assert(static_find_full(static_entry_name(9), static_entry_value(9)) == Some(9usize));
    assert(static_find_full(static_entry_name(10), static_entry_value(10)) == Some(10usize));
    assert(static_find_full(static_entry_name(11), static_entry_value(11)) == Some(11usize));
    assert(static_find_full(static_entry_name(12), static_entry_value(12)) == Some(12usize));
    assert(static_find_full(static_entry_name(13), static_entry_value(13)) == Some(13usize));
    assert(static_find_full(static_entry_name(14), static_entry_value(14)) == Some(14usize));
    assert(static_find_full(static_entry_name(15), static_entry_value(15)) == Some(15usize));
    assert(static_find_full(static_entry_name(16), static_entry_value(16)) == Some(16usize));
    assert(static_find_full(static_entry_name(17), static_entry_value(17)) == Some(17usize));
    assert(static_find_full(static_entry_name(18), static_entry_value(18)) == Some(18usize));
    assert(static_find_full(static_entry_name(19), static_entry_value(19)) == Some(19usize));
    assert(static_find_full(static_entry_name(20), static_entry_value(20)) == Some(20usize));
    assert(static_find_full(static_entry_name(21), static_entry_value(21)) == Some(21usize));
    assert(static_find_full(static_entry_name(22), static_entry_value(22)) == Some(22usize));
    assert(static_find_full(static_entry_name(23), static_entry_value(23)) == Some(23usize));
    assert(static_find_full(static_entry_name(24), static_entry_value(24)) == Some(24usize));
    assert(static_find_full(static_entry_name(25), static_entry_value(25)) == Some(25usize));
    assert(static_find_full(static_entry_name(26), static_entry_value(26)) == Some(26usize));
    assert(static_find_full(static_entry_name(27), static_entry_value(27)) == Some(27usize));
    assert(static_find_full(static_entry_name(28), static_entry_value(28)) == Some(28usize));
    assert(static_find_full(static_entry_name(29), static_entry_value(29)) == Some(29usize));
    assert(static_find_full(static_entry_name(30), static_entry_value(30)) == Some(30usize));
    assert(static_find_full(static_entry_name(31), static_entry_value(31)) == Some(31usize));
    assert(static_find_full(static_entry_name(32), static_entry_value(32)) == Some(32usize));
    assert(static_find_full(static_entry_name(33), static_entry_value(33)) == Some(33usize));
    assert(static_find_full(static_entry_name(34), static_entry_value(34)) == Some(34usize));
    assert(static_find_full(static_entry_name(35), static_entry_value(35)) == Some(35usize));
    assert(static_find_full(static_entry_name(36), static_entry_value(36)) == Some(36usize));
    assert(static_find_full(static_entry_name(37), static_entry_value(37)) == Some(37usize));
    assert(static_find_full(static_entry_name(38), static_entry_value(38)) == Some(38usize));
    assert(static_find_full(static_entry_name(39), static_entry_value(39)) == Some(39usize));
    assert(static_find_full(static_entry_name(40), static_entry_value(40)) == Some(40usize));
    assert(static_find_full(static_entry_name(41), static_entry_value(41)) == Some(41usize));
    assert(static_find_full(static_entry_name(42), static_entry_value(42)) == Some(42usize));
    assert(static_find_full(static_entry_name(43), static_entry_value(43)) == Some(43usize));
    assert(static_find_full(static_entry_name(44), static_entry_value(44)) == Some(44usize));
    assert(static_find_full(static_entry_name(45), static_entry_value(45)) == Some(45usize));
    assert(static_find_full(static_entry_name(46), static_entry_value(46)) == Some(46usize));
    assert(static_find_full(static_entry_name(47), static_entry_value(47)) == Some(47usize));
    assert(static_find_full(static_entry_name(48), static_entry_value(48)) == Some(48usize));
    assert(static_find_full(static_entry_name(49), static_entry_value(49)) == Some(49usize));
    assert(static_find_full(static_entry_name(50), static_entry_value(50)) == Some(50usize));
    assert(static_find_full(static_entry_name(51), static_entry_value(51)) == Some(51usize));
    assert(static_find_full(static_entry_name(52), static_entry_value(52)) == Some(52usize));
    assert(static_find_full(static_entry_name(53), static_entry_value(53)) == Some(53usize));
    assert(static_find_full(static_entry_name(54), static_entry_value(54)) == Some(54usize));
    assert(static_find_full(static_entry_name(55), static_entry_value(55)) == Some(55usize));
    assert(static_find_full(static_entry_name(56), static_entry_value(56)) == Some(56usize));
    assert(static_find_full(static_entry_name(57), static_entry_value(57)) == Some(57usize));
    assert(static_find_full(static_entry_name(58), static_entry_value(58)) == Some(58usize));
    assert(static_find_full(static_entry_name(59), static_entry_value(59)) == Some(59usize));
    assert(static_find_full(static_entry_name(60), static_entry_value(60)) == Some(60usize));
    assert(static_find_full(static_entry_name(61), static_entry_value(61)) == Some(61usize));
}

pub proof fn lemma_static_find_name_range(n: Seq<u8>)
    ensures
        static_find_name(n) matches Some(i) ==> 1 <= i <= 61,
{
}

pub proof fn lemma_static_find_full_range(n: Seq<u8>, v: Seq<u8>)
    ensures
        static_find_full(n, v) matches Some(i) ==> 1 <= i <= 61,
{
}

/// Looks a header name up in the static table.
pub fn lookup_name(n: &Vec<u8>) -> (r: Option<usize>)
    ensures
        r == static_find_name(n@),
{
    proof {
        reveal_strlit(":authority");
        reveal_strlit(":method");
        reveal_strlit(":path");
        reveal_strlit(":scheme");
        reveal_strlit(":status");
        reveal_strlit("accept-charset");
        reveal_strlit("accept-encoding");
        reveal_strlit("accept-language");
        reveal_strlit("accept-ranges");
        reveal_strlit("accept");
        reveal_strlit("access-control-allow-origin");
        reveal_strlit("age");
        reveal_strlit("allow");
        reveal_strlit("authorization");
        reveal_strlit("cache-control");
        reveal_strlit("content-disposition");
        reveal_strlit("content-encoding");
        reveal_strlit("content-language");
        reveal_strlit("content-length");
        reveal_strlit("content-location");
        reveal_strlit("content-range");
        reveal_strlit("content-type");
        reveal_strlit("cookie");
        reveal_strlit("date");
        reveal_strlit("etag");
        reveal_strlit("expect");
        reveal_strlit("expires");
        reveal_strlit("from");
        reveal_strlit("host");
        reveal_strlit("if-match");
        reveal_strlit("if-modified-since");
        reveal_strlit("if-none-match");
        reveal_strlit("if-range");
        reveal_strlit("if-unmodified-since");
        reveal_strlit("last-modified");
        reveal_strlit("link");
        reveal_strlit("location");
        reveal_strlit("max-forwards");
        reveal_strlit("proxy-authenticate");
        reveal_strlit("proxy-authorization");
        reveal_strlit("range");
        reveal_strlit("referer");
        reveal_strlit("refresh");
        reveal_strlit("retry-after");
        reveal_strlit("server");
        reveal_strlit("set-cookie");
        reveal_strlit("strict-transport-security");
        reveal_strlit("transfer-encoding");
        reveal_strlit("user-agent");
        reveal_strlit("vary");
        reveal_strlit("via");
        reveal_strlit("www-authenticate");
    }
    if name_is(n, ":authority") {
        Some(1)
    } else if name_is(n, ":method") {
        Some(2)
    } else if name_is(n, ":path") {
        Some(4)
    } else if name_is(n, ":scheme") {
        Some(6)
    } else if name_is(n, ":status") {
        Some(8)
    } else if name_is(n, "accept-charset") {
        Some(15)
    } else if name_is(n, "accept-encoding") {
        Some(16)
    } else if name_is(n, "accept-language") {
        Some(17)
    } else if name_is(n, "accept-ranges") {
        Some(18)
    } else if name_is(n, "accept") {
        Some(19)
    } else if name_is(n, "access-control-allow-origin") {
        Some(20)
    } else if name_is(n, "age") {
        Some(21)
    } else if name_is(n, "allow") {
        Some(22)
    } else if name_is(n, "authorization") {
        Some(23)
    } else if name_is(n, "cache-control") {
        Some(24)
    } else if name_is(n, "content-disposition") {
        Some(25)
    } else if name_is(n, "content-encoding") {
        Some(26)
    } else if name_is(n, "content-language") {
        Some(27)
    } else if name_is(n, "content-length") {
        Some(28)
    } else if name_is(n, "content-location") {
        Some(29)
    } else if name_is(n, "content-range") {
        Some(30)
    } else if name_is(n, "content-type") {
        Some(31)
    } else if name_is(n, "cookie") {
        Some(32)
    } else if name_is(n, "date") {
        Some(33)
    } else if name_is(n, "etag") {
        Some(34)
    } else if name_is(n, "expect") {
        Some(35)
    } else if name_is(n, "expires") {
        Some(36)
    } else if name_is(n, "from") {
        Some(37)
    } else if name_is(n, "host") {
        Some(38)
    } else if name_is(n, "if-match") {
        Some(39)
    } else if name_is(n, "if-modified-since") {
        Some(40)
    } else if name_is(n, "if-none-match") {
        Some(41)
    } else if name_is(n, "if-range") {
        Some(42)
    } else if name_is(n, "if-unmodified-since") {
        Some(43)
    } else if name_is(n, "last-modified") {
        Some(44)
    } else if name_is(n, "link") {
        Some(45)
    } else if name_is(n, "location") {
        Some(46)
    } else if name_is(n, "max-forwards") {
        Some(47)
    } else if name_is(n, "proxy-authenticate") {
        Some(48)
    } else if name_is(n, "proxy-authorization") {
        Some(49)
    } else if name_is(n, "range") {
        Some(50)
    } else if name_is(n, "referer") {
        Some(51)
    } else if name_is(n, "refresh") {
        Some(52)
    } else if name_is(n, "retry-after") {
        Some(53)
    } else if name_is(n, "server") {
        Some(54)
    } else if name_is(n, "set-cookie") {
        Some(55)
    } else if name_is(n, "strict-transport-security") {
        Some(56)
    } else if name_is(n, "transfer-encoding") {
        Some(57)
    } else if name_is(n, "user-agent") {
        Some(58)
    } else if name_is(n, "vary") {
        Some(59)
    } else if name_is(n, "via") {
        Some(60)
    } else if name_is(n, "www-authenticate") {
        Some(61)
    } else {
        None
    }
}

/// Looks a `(name, value)` pair up in the static table.
pub fn lookup_full(n: &Vec<u8>, v: &Vec<u8>) -> (r: Option<usize>)
    ensures
        r == static_find_full(n@, v@),
{
    proof {
        reveal_strlit(":authority");
        reveal_strlit(":method");
        reveal_strlit(":path");
        reveal_strlit(":scheme");
        reveal_strlit(":status");
        reveal_strlit("accept-charset");
        reveal_strlit("accept-encoding");
        reveal_strlit("accept-language");
        reveal_strlit("accept-ranges");
        reveal_strlit("accept");
        reveal_strlit("access-control-allow-origin");
        reveal_strlit("age");
        reveal_strlit("allow");
        reveal_strlit("authorization");
        reveal_strlit("cache-control");
        reveal_strlit("content-disposition");
        reveal_strlit("content-encoding");
        reveal_strlit("content-language");
        reveal_strlit("content-length");
        reveal_strlit("content-location");
        reveal_strlit("content-range");
        reveal_strlit("content-type");
        reveal_strlit("cookie");
        reveal_strlit("date");
        reveal_strlit("etag");
        reveal_strlit("expect");
        reveal_strlit("expires");
        reveal_strlit("from");
        reveal_strlit("host");
        reveal_strlit("if-match");
        reveal_strlit("if-modified-since");
        reveal_strlit("if-none-match");
        reveal_strlit("if-range");
        reveal_strlit("if-unmodified-since");
        reveal_strlit("last-modified");
        reveal_strlit("link");
        reveal_strlit("location");
        reveal_strlit("max-forwards");
        reveal_strlit("proxy-authenticate");
        reveal_strlit("proxy-authorization");
        reveal_strlit("range");
        reveal_strlit("referer");
        reveal_strlit("refresh");
        reveal_strlit("retry-after");
        reveal_strlit("server");
        reveal_strlit("set-cookie");
        reveal_strlit("strict-transport-security");
        reveal_strlit("transfer-encoding");
        reveal_strlit("user-agent");
        reveal_strlit("vary");
        reveal_strlit("via");
        reveal_strlit("www-authenticate");
        reveal_strlit("/");
        reveal_strlit("/index.html");
        reveal_strlit("200");
        reveal_strlit("204");
        reveal_strlit("206");
        reveal_strlit("304");
        reveal_strlit("400");
        reveal_strlit("404");
        reveal_strlit("500");
        reveal_strlit("GET");
        reveal_strlit("POST");
        reveal_strlit("gzip, deflate");
        reveal_strlit("http");
        reveal_strlit("https");
    }
    if name_is(n, ":authority") {
        if v.len() == 0 {
            Some(1)
        } else {
            None
        }
    } else if name_is(n, ":method") {
        if name_is(v, "GET") {
            Some(2)
        } else if name_is(v, "POST") {
            Some(3)
        } else {
            None
        }
    } else if name_is(n, ":path") {
        if name_is(v, "/") {
            Some(4)
        } else if name_is(v, "/index.html") {
            Some(5)
        } else {
            None
        }
    } else if name_is(n, ":scheme") {
        if name_is(v, "http") {
            Some(6)
        } else if name_is(v, "https") {
            Some(7)
        } else {
            None
        }
    } else if name_is(n, ":status") {
        if name_is(v, "200") {
            Some(8)
        } else if name_is(v, "204") {
            Some(9)
        } else if name_is(v, "206") {
            Some(10)
        } else if name_is(v, "304") {
            Some(11)
        } else if name_is(v, "400") {
            Some(12)
        } else if name_is(v, "404") {
            Some(13)
        } else if name_is(v, "500") {
            Some(14)
        } else {
            None
        }
    } else if name_is(n, "accept-charset") {
        if v.len() == 0 {
            Some(15)
        } else {
            None
        }
    } else if name_is(n, "accept-encoding") {
        if name_is(v, "gzip, deflate") {
            Some(16)
        } else {
            None
        }
    } else if name_is(n, "accept-language") {
        if v.len() == 0 {
            Some(17)
        } else {
            None
        }
    } else if name_is(n, "accept-ranges") {
        if v.len() == 0 {
            Some(18)
        } else {
            None
        }
    } else if name_is(n, "accept") {
        if v.len() == 0 {
            Some(19)
        } else {
            None
        }
    } else if name_is(n, "access-control-allow-origin") {
        if v.len() == 0 {
            Some(20)
        } else {
            None
        }
    } else if name_is(n, "age") {
        if v.len() == 0 {
            Some(21)
        } else {
            None
        }
    } else if name_is(n, "allow") {
        if v.len() == 0 {
            Some(22)
        } else {
            None
        }
    } else if name_is(n, "authorization") {
        if v.len() == 0 {
            Some(23)
        } else {
            None
        }
    } else if name_is(n, "cache-control") {
        if v.len() == 0 {
            Some(24)
        } else {
            None
        }
    } else if name_is(n, "content-disposition") {
        if v.len() == 0 {
            Some(25)
        } else {
            None
        }
    } else if name_is(n, "content-encoding") {
        if v.len() == 0 {
            Some(26)
        } else {
            None
        }
    } else if name_is(n, "content-language") {
        if v.len() == 0 {
            Some(27)
        } else {
            None
        }
    } else if name_is(n, "content-length") {
        if v.len() == 0 {
            Some(28)
        } else {
            None
        }
    } else if name_is(n, "content-location") {
        if v.len() == 0 {
            Some(29)
        } else {
            None
        }
    } else if name_is(n, "content-range") {
        if v.len() == 0 {
            Some(30)
        } else {
            None
        }
    } else if name_is(n, "content-type") {
        if v.len() == 0 {
            Some(31)
        } else {
            None
        }
    } else if name_is(n, "cookie") {
        if v.len() == 0 {
            Some(32)
        } else {
            None
        }
    } else if name_is(n, "date") {
        if v.len() == 0 {
            Some(33)
        } else {
            None
        }
    } else if name_is(n, "etag") {
        if v.len() == 0 {
            Some(34)
        } else {
            None
        }
    } else if name_is(n, "expect") {
        if v.len() == 0 {
            Some(35)
        } else {
            None
        }
    } else if name_is(n, "expires") {
        if v.len() == 0 {
            Some(36)
        } else {
            None
        }
    } else if name_is(n, "from") {
        if v.len() == 0 {
            Some(37)
        } else {
            None
        }
    } else if name_is(n, "host") {
        if v.len() == 0 {
            Some(38)
        } else {
            None
        }
    } else if name_is(n, "if-match") {
        if v.len() == 0 {
            Some(39)
        } else {
            None
        }
    } else if name_is(n, "if-modified-since") {
        if v.len() == 0 {
            Some(40)
        } else {
            None
        }
    } else if name_is(n, "if-none-match") {
        if v.len() == 0 {
            Some(41)
        } else {
            None
        }
    } else if name_is(n, "if-range") {
        if v.len() == 0 {
            Some(42)
        } else {
            None
        }
    } else if name_is(n, "if-unmodified-since") {
        if v.len() == 0 {
            Some(43)
        } else {
            None
        }
    } else if name_is(n, "last-modified") {
        if v.len() == 0 {
            Some(44)
        } else {
            None
        }
    } else if name_is(n, "link") {
        if v.len() == 0 {
            Some(45)
        } else {
            None
        }
    } else if name_is(n, "location") {
        if v.len() == 0 {
            Some(46)
        } else {
            None
        }
    } else if name_is(n, "max-forwards") {
        if v.len() == 0 {
            Some(47)
        } else {
            None
        }
    } else if name_is(n, "proxy-authenticate") {
        if v.len() == 0 {
            Some(48)
        } else {
            None
        }
    } else if name_is(n, "proxy-authorization") {
        if v.len() == 0 {
            Some(49)
        } else {
            None
        }
    } else if name_is(n, "range") {
        if v.len() == 0 {
            Some(50)
        } else {
            None
        }
    } else if name_is(n, "referer") {
        if v.len() == 0 {
            Some(51)
        } else {
            None
        }
    } else if name_is(n, "refresh") {
        if v.len() == 0 {
            Some(52)
        } else {
            None
        }
    } else if name_is(n, "retry-after") {
        if v.len() == 0 {
            Some(53)
        } else {
            None
        }
    } else if name_is(n, "server") {
        if v.len() == 0 {
            Some(54)
        } else {
            None
        }
    } else if name_is(n, "set-cookie") {
        if v.len() == 0 {
            Some(55)
        } else {
            None
        }
    } else if name_is(n, "strict-transport-security") {
        if v.len() == 0 {
            Some(56)
        } else {
            None
        }
    } else if name_is(n, "transfer-encoding") {
        if v.len() == 0 {
            Some(57)
        } else {
            None
        }
    } else if name_is(n, "user-agent") {
        if v.len() == 0 {
            Some(58)
        } else {
            None
        }
    } else if name_is(n, "vary") {
        if v.len() == 0 {
            Some(59)
        } else {
            None
        }
    } else if name_is(n, "via") {
        if v.len() == 0 {
            Some(60)
        } else {
            None
        }
    } else if name_is(n, "www-authenticate") {
        if v.len() == 0 {
            Some(61)
        } else {
            None
        }
    } else {
        None
    }
}

} // verus!
