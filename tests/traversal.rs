use camino::Utf8PathBuf;
use visit_bytes::{Element, InvalidRepresentation, Visitor, VisitorMut};

/// Records every byte region it is handed.
struct Recorder {
    seen: Vec<Vec<u8>>,
}

impl Visitor for Recorder {
    fn visit_bytes(&mut self, bytes: &[u8]) {
        self.seen.push(bytes.to_vec());
    }
}

/// Replaces every occurrence of `from` (non-overlapping, left to right) by
/// `to`, which has the same length.
struct Replacer {
    from: Vec<u8>,
    to: Vec<u8>,
    calls: usize,
}

impl Replacer {
    fn new(from: &[u8], to: &[u8]) -> Replacer {
        assert_eq!(from.len(), to.len());
        Replacer { from: from.to_vec(), to: to.to_vec(), calls: 0 }
    }
}

impl VisitorMut for Replacer {
    fn visit_bytes(&mut self, bytes: &mut [u8]) {
        self.calls += 1;
        let n = self.from.len();
        let mut i = 0;
        while n > 0 && i + n <= bytes.len() {
            if bytes[i..i + n] == self.from[..] {
                bytes[i..i + n].copy_from_slice(&self.to);
                i += n;
            } else {
                i += 1;
            }
        }
    }
}

/// Looks at the bytes and counts them, never changing them.
struct Counter {
    total: usize,
}

impl VisitorMut for Counter {
    fn visit_bytes(&mut self, bytes: &mut [u8]) {
        self.total += bytes.len();
    }
}

/// Overwrites the byte at one position.
struct Poke {
    at: usize,
    value: u8,
}

impl VisitorMut for Poke {
    fn visit_bytes(&mut self, bytes: &mut [u8]) {
        bytes[self.at] = self.value;
    }
}

#[test]
fn text_replace_byte() {
    let mut s = String::from("hello");
    let mut v = Replacer::new(b"l", b"L");
    assert_eq!(s.accept_mut(&mut v), Ok(()));
    assert_eq!(s, "heLLo");
    assert_eq!(v.calls, 1);
}

#[test]
fn raw_replace_byte() {
    let mut b: Vec<u8> = vec![0xDE, 0xAD];
    let mut v = Replacer::new(&[0xAD], &[0xBE]);
    assert_eq!(b.as_mut_slice().accept_mut(&mut v), Ok(()));
    assert_eq!(b, vec![0xDE, 0xBE]);
    assert_eq!(v.calls, 1);
}

#[test]
fn text_corrupted_multibyte_rejected() {
    let mut s = String::from("café");
    assert_eq!(s.as_bytes(), &[0x63, 0x61, 0x66, 0xC3, 0xA9]);
    let mut v = Poke { at: 4, value: 0x41 };
    assert_eq!(s.accept_mut(&mut v), Err(InvalidRepresentation));
    assert_eq!(s, "café");
}

#[test]
fn path_replace_segment() {
    let mut p = Utf8PathBuf::from("/tmp/x");
    let mut v = Replacer::new(b"tmp", b"var");
    assert_eq!(p.accept_mut(&mut v), Ok(()));
    assert_eq!(p, Utf8PathBuf::from("/var/x"));
    assert_eq!(p.as_str(), "/var/x");
}

#[test]
fn path_corrupted_rejected() {
    let mut p = Utf8PathBuf::from("/tmp/x");
    let mut v = Poke { at: 1, value: 0xFF };
    assert_eq!(p.accept_mut(&mut v), Err(InvalidRepresentation));
    assert_eq!(p.as_str(), "/tmp/x");
}

#[test]
fn identity_rewrite_keeps_text() {
    let mut s = String::from("naïve text");
    let mut v = Counter { total: 0 };
    assert_eq!(s.accept_mut(&mut v), Ok(()));
    assert_eq!(s, "naïve text");
    assert_eq!(v.total, 11);
}

#[test]
fn identity_rewrite_keeps_path() {
    let mut p = Utf8PathBuf::from("/home/ü/file.txt");
    let mut v = Counter { total: 0 };
    assert_eq!(p.accept_mut(&mut v), Ok(()));
    assert_eq!(p.as_str(), "/home/ü/file.txt");
    assert_eq!(v.total, 17);
}

#[test]
fn identity_rewrite_keeps_raw_bytes() {
    let mut b: Vec<u8> = vec![0xFF, 0x00, 0x80];
    let mut v = Counter { total: 0 };
    assert_eq!(b.as_mut_slice().accept_mut(&mut v), Ok(()));
    assert_eq!(b, vec![0xFF, 0x00, 0x80]);
    assert_eq!(v.total, 3);
}

#[test]
fn raw_visit_sees_content_once() {
    let b: Vec<u8> = vec![1, 2, 3, 0xFF];
    let mut v = Recorder { seen: Vec::new() };
    b.as_slice().accept(&mut v);
    assert_eq!(v.seen, vec![vec![1u8, 2, 3, 0xFF]]);
}

#[test]
fn raw_visit_empty() {
    let b: Vec<u8> = Vec::new();
    let mut v = Recorder { seen: Vec::new() };
    b.as_slice().accept(&mut v);
    assert_eq!(v.seen, vec![Vec::<u8>::new()]);
}

#[test]
fn text_visit_sees_utf8_bytes() {
    let s = String::from("é!");
    let mut v = Recorder { seen: Vec::new() };
    s.accept(&mut v);
    assert_eq!(v.seen, vec![vec![0xC3u8, 0xA9, 0x21]]);
}

#[test]
fn path_visit_sees_text_bytes() {
    let p = Utf8PathBuf::from("/tmp/x");
    let mut v = Recorder { seen: Vec::new() };
    p.accept(&mut v);
    assert_eq!(v.seen, vec![b"/tmp/x".to_vec()]);
}

#[test]
fn raw_rewrite_into_invalid_utf8_commits() {
    let mut b: Vec<u8> = b"ok".to_vec();
    let mut v = Poke { at: 0, value: 0xFF };
    assert_eq!(b.as_mut_slice().accept_mut(&mut v), Ok(()));
    assert_eq!(b, vec![0xFF, b'k']);
}

#[test]
fn text_rewrite_keeping_utf8_commits() {
    let mut s = String::from("abc");
    let mut v = Poke { at: 1, value: b'B' };
    assert_eq!(s.accept_mut(&mut v), Ok(()));
    assert_eq!(s, "aBc");
}

#[test]
fn text_rewrite_to_other_multibyte_char() {
    // é (C3 A9) becomes É (C3 89)
    let mut s = String::from("café");
    let mut v = Poke { at: 4, value: 0x89 };
    assert_eq!(s.accept_mut(&mut v), Ok(()));
    assert_eq!(s, "cafÉ");
}

#[test]
fn text_rewrite_into_surrogate_rejected() {
    // ED 9F BF is U+D7FF; ED A0 80 would be the surrogate U+D800
    let mut s = String::from("\u{D7FF}");
    let mut v = Replacer::new(&[0x9F, 0xBF], &[0xA0, 0x80]);
    assert_eq!(s.accept_mut(&mut v), Err(InvalidRepresentation));
    assert_eq!(s, "\u{D7FF}");
}

#[test]
fn empty_text_rewrite() {
    let mut s = String::new();
    let mut v = Counter { total: 0 };
    assert_eq!(s.accept_mut(&mut v), Ok(()));
    assert_eq!(s, "");
    assert_eq!(v.total, 0);
}
