use bytes::BytesMut;
use hpack_encoder::{Encoder, Header, SizeUpdate};

fn encode(e: &mut Encoder, hdrs: Vec<Header>) -> BytesMut {
    let mut dst = BytesMut::with_capacity(1024);
    let _ = e.encode(hdrs, &mut dst);
    dst
}

fn header(name: &str, val: &str) -> Header {
    Header::Field {
        name: name.to_ascii_lowercase().into_bytes(),
        value: val.as_bytes().to_vec(),
        sensitive: false,
    }
}

fn sensitive(name: &str, val: &str) -> Header {
    Header::Field {
        name: name.to_ascii_lowercase().into_bytes(),
        value: val.as_bytes().to_vec(),
        sensitive: true,
    }
}

fn huff(s: &str) -> Vec<u8> {
    let mut dst = Vec::new();
    httlib_huffman::encode(s.as_bytes(), &mut dst).unwrap();
    dst
}

/// Static pairs with a value hit the single-byte indexed form.
#[test]
fn test_static_pairs_are_single_byte() {
    let mut encoder = Encoder::default();
    let res = encode(&mut encoder, vec![header(":status", "204")]);
    assert_eq!(*res, [0x80 | 9]);

    let res = encode(&mut encoder, vec![header("accept-encoding", "gzip, deflate")]);
    assert_eq!(*res, [0x80 | 16]);

    let res = encode(&mut encoder, vec![Header::Scheme("https".as_bytes().to_vec())]);
    assert_eq!(*res, [0x80 | 7]);

    // Static pairs with an empty value hit their canonical index too.
    let res = encode(&mut encoder, vec![header("accept", "")]);
    assert_eq!(*res, [0x80 | 19]);

    assert_eq!(0, encoder.table.len());
}

/// A conforming decoder reconstructs the input headers exactly, across
/// indexed, inserting, literal, never-indexed and sensitive forms.
#[test]
fn test_round_trip_with_decoder() {
    let mut encoder = Encoder::default();
    let mut decoder = hpack::Decoder::new();

    let batches: Vec<Vec<Header>> = vec![
        vec![
            Header::Method("GET".as_bytes().to_vec()),
            Header::Path("/index.html".as_bytes().to_vec()),
            header("user-agent", "curl/8"),
            header("x-custom", "one"),
        ],
        vec![
            // Repeats are served from the dynamic table now.
            header("user-agent", "curl/8"),
            header("x-custom", "two"),
            header("content-length", "512"),
            sensitive("authorization", "Basic dXNlcjpwYXNz"),
        ],
        vec![header("x-custom", "one"), header("x-custom", "two")],
    ];

    for batch in batches {
        let expected: Vec<(Vec<u8>, Vec<u8>)> = batch
            .iter()
            .map(|h| match h {
                Header::Method(v) => (b":method".to_vec(), v.clone()),
                Header::Path(v) => (b":path".to_vec(), v.clone()),
                Header::Field { name, value, .. } => (name.clone(), value.clone()),
                _ => unreachable!(),
            })
            .collect();
        let block = encode(&mut encoder, batch);
        let decoded = decoder.decode(&block).unwrap();
        assert_eq!(expected, decoded);
    }
}

/// A sensitive header leaves the dynamic table exactly as it was.
#[test]
fn test_sensitive_leaves_table_unchanged() {
    let mut encoder = Encoder::default();
    let _ = encode(&mut encoder, vec![header("foo", "bar"), header("baz", "qux")]);
    assert_eq!(2, encoder.table.len());
    let size_before = encoder.table.size();

    let _ = encode(&mut encoder, vec![sensitive("foo", "bar"), sensitive("hush", "now")]);
    assert_eq!(2, encoder.table.len());
    assert_eq!(size_before, encoder.table.size());

    // The prefix-then-sensitive table serves the same indices as before.
    let res = encode(&mut encoder, vec![header("baz", "qux")]);
    assert_eq!(*res, [0x80 | 62]);
}

/// The other never-indexed names behave like content-length: a name
/// reference with a literal value and no insertion.
#[test]
fn test_never_indexed_names() {
    let mut encoder = Encoder::default();

    // date is static index 33: 0x0f, then 33 - 15 = 18.
    let res = encode(&mut encoder, vec![header("date", "Mon")]);
    assert_eq!(&[15, 18], &res[..2]);
    assert_eq!(0, encoder.table.len());

    // set-cookie is static index 55.
    let res = encode(&mut encoder, vec![header("set-cookie", "sid=1")]);
    assert_eq!(&[15, 40], &res[..2]);
    assert_eq!(0, encoder.table.len());

    // A non-sensitive authorization value is still never inserted.
    let res = encode(&mut encoder, vec![header("authorization", "Bearer t")]);
    assert_eq!(&[15, 8], &res[..2]);
    assert_eq!(0, encoder.table.len());
}

/// A short cookie value is never indexed; a long one is inserted.
#[test]
fn test_cookie_policy() {
    let mut encoder = Encoder::default();

    // cookie is static index 32: 0x0f, then 32 - 15 = 17.
    let res = encode(&mut encoder, vec![header("cookie", "k=v")]);
    assert_eq!(&[15, 17], &res[..2]);
    assert_eq!(0, encoder.table.len());

    let long = "k=0123456789abcdefghij";
    let res = encode(&mut encoder, vec![header("cookie", long)]);
    assert_eq!(0x40 | 32, res[0]);
    assert_eq!(1, encoder.table.len());
}

/// An empty value is written as a zero-length string literal.
#[test]
fn test_empty_value_literal() {
    let mut encoder = Encoder::default();
    let res = encode(&mut encoder, vec![header("x-empty", "")]);

    let hn = huff("x-empty");
    assert_eq!(0x40, res[0]);
    assert_eq!(0x80 | (hn.len() as u8), res[1]);
    assert_eq!(&hn[..], &res[2..2 + hn.len()]);
    assert_eq!(0x00, res[2 + hn.len()]);
    assert_eq!(3 + hn.len(), res.len());
    assert_eq!(1, encoder.table.len());
}

/// Staging a shrink and then a growth emits both size-update commands and
/// leaves the larger maximum in force.
#[test]
fn test_two_size_updates_emitted() {
    let mut encoder = Encoder::default();
    encoder.update_max_size(0);
    encoder.update_max_size(100);
    assert_eq!(Some(SizeUpdate::Two(0, 100)), encoder.size_update);

    let res = encode(&mut encoder, vec![]);
    assert_eq!(&[0x20, 0x20 | 31, 69], &res[..]);
    assert_eq!(None, encoder.size_update);
    assert_eq!(100, encoder.table.max_size());
}

/// An exact prefix-integer boundary: value 63 under a 6-bit prefix takes a
/// continuation byte of zero.
#[test]
fn test_prefix_integer_boundary() {
    // Fill the table so that a name lands exactly at composite index 63.
    let mut encoder = Encoder::default();
    let _ = encode(&mut encoder, vec![header("aa", "1")]);
    let _ = encode(&mut encoder, vec![header("bb", "2")]);
    // "aa" is now at index 63; a new value under that name emits the
    // inserting form with the prefix saturated and a zero continuation.
    let res = encode(&mut encoder, vec![header("aa", "3")]);
    assert_eq!(&[0x40 | 63, 0], &res[..2]);
}

/// The encoder appends to the destination without clearing what precedes.
#[test]
fn test_appends_to_destination() {
    let mut encoder = Encoder::default();
    let mut dst = BytesMut::with_capacity(64);
    dst.extend_from_slice(&[0xaa, 0xbb]);
    let _ = encoder.encode(vec![Header::Method("GET".as_bytes().to_vec())], &mut dst);
    assert_eq!(*dst, [0xaa, 0xbb, 0x82]);
}
