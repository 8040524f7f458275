//! Remote memory reading: the word-at-a-time model of a tracee's memory and
//! the terminator scan that folds raw words back into the text they carry.
//!
//! A remote read yields pointer-width words; the bytes of each word are taken
//! in little-endian index order, and a string read ends at the first NUL byte
//! or at the first word that cannot be read.
use vstd::prelude::*;

verus! {

/// Byte `i` (little-endian order) of the word `w`.
pub open spec fn word_byte(w: u64, i: int) -> u8 {
    ((w >> ((8 * i) as u64)) & 0xff) as u8
}

/// The eight bytes of one word, least significant first.
pub open spec fn word_bytes(w: u64) -> Seq<u8> {
    Seq::new(8, |i: int| word_byte(w, i))
}

/// The byte image of a run of words.
pub open spec fn words_bytes(ws: Seq<u64>) -> Seq<u8> {
    ws.map_values(|w: u64| word_bytes(w)).flatten()
}

/// Whether the byte run holds a NUL terminator.
pub open spec fn contains_nul(bs: Seq<u8>) -> bool
    decreases bs.len(),
{
    if bs.len() == 0 {
        false
    } else {
        bs[0] == 0 || contains_nul(bs.drop_first())
    }
}

/// The bytes before the first NUL: the whole run when no NUL occurs.
pub open spec fn take_until_nul(bs: Seq<u8>) -> Seq<u8>
    decreases bs.len(),
{
    if bs.len() == 0 {
        bs
    } else if bs[0] == 0 {
        Seq::empty()
    } else {
        seq![bs[0]] + take_until_nul(bs.drop_first())
    }
}

/// A byte run read as text, one character per byte.
pub open spec fn bytes_text(bs: Seq<u8>) -> Seq<char> {
    bs.map_values(|b: u8| b as char)
}

/// `contains_nul` agrees with the pointwise statement.
pub proof fn lemma_contains_nul_index(bs: Seq<u8>)
    ensures
        contains_nul(bs) <==> exists|i: int| 0 <= i < bs.len() && bs[i] == 0,
    decreases bs.len(),
{
    if bs.len() > 0 {
        lemma_contains_nul_index(bs.drop_first());
        if bs[0] == 0 {
            assert(bs[0] == 0 && 0 <= 0 < bs.len());
        } else if contains_nul(bs.drop_first()) {
            let j = choose|j: int| 0 <= j < bs.drop_first().len() && bs.drop_first()[j] == 0;
            assert(bs[j + 1] == 0);
        } else {
            assert forall|i: int| 0 <= i < bs.len() implies bs[i] != 0 by {
                if i > 0 {
                    assert(bs.drop_first()[i - 1] == bs[i]);
                }
            }
        }
    }
}

/// A run without a NUL scans to itself.
pub proof fn lemma_scan_all(bs: Seq<u8>)
    requires
        !contains_nul(bs),
    ensures
        take_until_nul(bs) == bs,
    decreases bs.len(),
{
    if bs.len() > 0 {
        lemma_scan_all(bs.drop_first());
        assert(take_until_nul(bs) =~= bs);
    }
}

/// The scan of a concatenation: it ends inside the first part exactly when
/// that part holds a NUL.
pub proof fn lemma_scan_concat(a: Seq<u8>, b: Seq<u8>)
    ensures
        take_until_nul(a + b) == if contains_nul(a) {
            take_until_nul(a)
        } else {
            a + take_until_nul(b)
        },
    decreases a.len(),
{
    if a.len() == 0 {
        assert(a + b =~= b);
        assert(a + take_until_nul(b) =~= take_until_nul(b));
    } else {
        assert((a + b).len() > 0);
        assert((a + b)[0] == a[0]);
        if a[0] == 0 {
            assert(take_until_nul(a + b) =~= Seq::<u8>::empty());
            assert(take_until_nul(a) =~= Seq::<u8>::empty());
        } else {
            lemma_scan_concat(a.drop_first(), b);
            assert((a + b).drop_first() =~= a.drop_first() + b);
            if contains_nul(a) {
                assert(take_until_nul(a + b) =~= take_until_nul(a));
            } else {
                assert(seq![a[0]] + (a.drop_first() + take_until_nul(b)) =~= a + take_until_nul(
                    b,
                ));
            }
        }
    }
}

/// The eight little-endian bytes of a word, as a vector.
pub fn le_bytes(w: u64) -> (r: Vec<u8>)
    ensures
        r@ == word_bytes(w),
{
    let mut v: Vec<u8> = Vec::new();
    v.push(((w >> 0u64) & 0xff) as u8);
    v.push(((w >> 8u64) & 0xff) as u8);
    v.push(((w >> 16u64) & 0xff) as u8);
    v.push(((w >> 24u64) & 0xff) as u8);
    v.push(((w >> 32u64) & 0xff) as u8);
    v.push(((w >> 40u64) & 0xff) as u8);
    v.push(((w >> 48u64) & 0xff) as u8);
    v.push(((w >> 56u64) & 0xff) as u8);
    assert(v@ =~= word_bytes(w));
    v
}

/// Whether the word carries a NUL terminator in one of its bytes.
pub fn has_nul(w: u64) -> (r: bool)
    ensures
        r <==> contains_nul(word_bytes(w)),
{
    let bytes = le_bytes(w);
    let mut j: usize = 0;
    while j < bytes.len()
        invariant
            j <= bytes@.len(),
            bytes@ == word_bytes(w),
            forall|k: int| 0 <= k < j ==> bytes@[k] != 0,
        decreases bytes@.len() - j,
    {
        if bytes[j] == 0 {
            proof {
                lemma_contains_nul_index(word_bytes(w));
            }
            return true;
        }
        j = j + 1;
    }
    proof {
        lemma_contains_nul_index(word_bytes(w));
    }
    false
}

/// The text carried by a run of remote words: every byte before the first
/// NUL, in little-endian order word by word, read as characters.
pub fn string_from_words(words: &Vec<u64>) -> (r: String)
    ensures
        r@ == bytes_text(take_until_nul(words_bytes(words@))),
{
    let mut bytes: Vec<u8> = Vec::new();
    let mut i: usize = 0;
    while i < words.len()
        invariant
            i <= words@.len(),
            bytes@ == words_bytes(words@.take(i as int)),
        decreases words@.len() - i,
    {
        let mut wb = le_bytes(words[i]);
        proof {
            let m = words@.take(i as int).map_values(|x: u64| word_bytes(x));
            assert(words@.take(i as int + 1).map_values(|x: u64| word_bytes(x)) =~= m.push(
                word_bytes(words@[i as int]),
            ));
            m.lemma_flatten_push(word_bytes(words@[i as int]));
        }
        bytes.append(&mut wb);
        i = i + 1;
    }
    assert(words@.take(words@.len() as int) =~= words@);
    scan_string(&bytes)
}

/// The text before the first NUL of a byte run.
fn scan_string(bytes: &Vec<u8>) -> (r: String)
    ensures
        r@ == bytes_text(take_until_nul(bytes@)),
{
    let mut s = String::new();
    let mut j: usize = 0;
    let n = bytes.len();
    while j < n
        invariant
            j <= n == bytes@.len(),
            forall|k: int| 0 <= k < j ==> bytes@[k] != 0,
            s@ == bytes_text(bytes@.take(j as int)),
        decreases n - j,
    {
        let b = bytes[j];
        if b == 0 {
            proof {
                lemma_contains_nul_index(bytes@.take(j as int));
                lemma_scan_prefix(bytes@, j as int);
            }
            return s;
        }
        s.push(b as char);
        proof {
            assert(bytes_text(bytes@.take(j as int + 1)) =~= bytes_text(
                bytes@.take(j as int),
            ).push(b as char));
        }
        j = j + 1;
    }
    proof {
        lemma_contains_nul_index(bytes@);
        lemma_scan_all(bytes@);
        assert(bytes@.take(n as int) =~= bytes@);
    }
    s
}

/// A NUL just past a clean prefix ends the scan exactly there.
proof fn lemma_scan_prefix(bs: Seq<u8>, j: int)
    requires
        0 <= j < bs.len(),
        !contains_nul(bs.take(j)),
        bs[j] == 0,
    ensures
        take_until_nul(bs) == bs.take(j),
{
    lemma_scan_concat(bs.take(j), bs.skip(j));
    assert(bs.take(j) + bs.skip(j) =~= bs);
    assert(bs.skip(j)[0] == 0);
    assert(take_until_nul(bs.skip(j)) =~= Seq::<u8>::empty());
    assert(bs.take(j) + Seq::<u8>::empty() =~= bs.take(j));
}

/// How many zero bytes terminate and pad a write of `n` text bytes to a whole
/// number of words: at least one, at most a full word.
pub open spec fn pad_len(n: nat) -> nat {
    (8 - n % 8) as nat
}

/// A byte run as it stands in memory after being written: the text, a NUL
/// terminator, and zero padding up to a word boundary.
pub open spec fn padded(bs: Seq<u8>) -> Seq<u8> {
    bs + Seq::new(pad_len(bs.len()), |i: int| 0u8)
}

/// The words that a write of `bytes` leaves in memory: the text bytes packed
/// little-endian, NUL-terminated and zero-padded to a word boundary.
pub fn pack_words(bytes: &Vec<u8>) -> (r: Vec<u64>)
    ensures
        words_bytes(r@) == padded(bytes@),
{
    let mut pv: Vec<u8> = Vec::new();
    let mut i: usize = 0;
    while i < bytes.len()
        invariant
            i <= bytes@.len(),
            pv@ == bytes@.take(i as int),
        decreases bytes@.len() - i,
    {
        pv.push(bytes[i]);
        assert(pv@ =~= bytes@.take(i as int + 1));
        i = i + 1;
    }
    assert(bytes@.take(bytes@.len() as int) =~= bytes@);
    let pad = 8 - bytes.len() % 8;
    let mut k: usize = 0;
    while k < pad
        invariant
            k <= pad == pad_len(bytes@.len() as nat),
            pv@ == bytes@ + Seq::new(k as nat, |x: int| 0u8),
        decreases pad - k,
    {
        pv.push(0);
        assert(pv@ =~= bytes@ + Seq::new(k as nat + 1, |x: int| 0u8));
        k = k + 1;
    }
    assert(pv@ == padded(bytes@));
    assert(pv@.len() % 8 == 0);
    let nw = pv.len() / 8;
    let mut r: Vec<u64> = Vec::new();
    let mut wi: usize = 0;
    while wi < nw
        invariant
            wi <= nw,
            nw == pv@.len() / 8,
            pv@.len() % 8 == 0,
            pv@.len() <= usize::MAX,
            words_bytes(r@) == pv@.take(8 * wi as int),
        decreases nw - wi,
    {
        assert(8 * wi as int + 8 <= pv@.len());
        let base = wi * 8;
        let b0 = pv[base];
        let b1 = pv[base + 1];
        let b2 = pv[base + 2];
        let b3 = pv[base + 3];
        let b4 = pv[base + 4];
        let b5 = pv[base + 5];
        let b6 = pv[base + 6];
        let b7 = pv[base + 7];
        let w = (b0 as u64) | ((b1 as u64) << 8u64) | ((b2 as u64) << 16u64) | ((b3 as u64)
            << 24u64) | ((b4 as u64) << 32u64) | ((b5 as u64) << 40u64) | ((b6 as u64) << 48u64) | (
        (b7 as u64) << 56u64);
        proof {
            assert((((w >> 0u64) & 0xff) as u8 == b0) && (((w >> 8u64) & 0xff) as u8 == b1) && (((w
                >> 16u64) & 0xff) as u8 == b2) && (((w >> 24u64) & 0xff) as u8 == b3) && (((w
                >> 32u64) & 0xff) as u8 == b4) && (((w >> 40u64) & 0xff) as u8 == b5) && (((w
                >> 48u64) & 0xff) as u8 == b6) && (((w >> 56u64) & 0xff) as u8 == b7))
                by (bit_vector)
                requires
                    w == (b0 as u64) | ((b1 as u64) << 8u64) | ((b2 as u64) << 16u64) | ((b3 as u64)
                        << 24u64) | ((b4 as u64) << 32u64) | ((b5 as u64) << 40u64) | ((b6 as u64)
                        << 48u64) | ((b7 as u64) << 56u64),
            ;
            assert(word_bytes(w) =~= pv@.subrange(base as int, base as int + 8));
        }
        let ghost rold = r@;
        r.push(w);
        proof {
            let m = rold.map_values(|x: u64| word_bytes(x));
            assert(r@.map_values(|x: u64| word_bytes(x)) =~= m.push(word_bytes(w)));
            m.lemma_flatten_push(word_bytes(w));
            assert(pv@.take(8 * wi as int) + pv@.subrange(base as int, base as int + 8) =~= pv@.take(
                8 * (wi as int + 1),
            ));
        }
        wi = wi + 1;
    }
    assert(pv@.take(8 * nw as int) =~= pv@);
    r
}

/// Text that could have come out of a remote read: the terminator scan of
/// some word run. Such text never carries a NUL character.
pub open spec fn remote_text(s: Seq<char>) -> bool {
    exists|ws: Seq<u64>| s == bytes_text(take_until_nul(words_bytes(ws)))
}

/// The NUL-terminated text at `addr` of the tracee's memory, read word by
/// word. Best effort: the read ends at the first NUL byte or at the first
/// word that cannot be read — whatever was collected so far is kept — and
/// the end of the address space ends it like a fault. The result is always
/// the terminator scan of some word run, so it never carries a NUL and is
/// never garbage past a fault.
pub fn read_string(pid: &nix::unistd::Pid, addr: u64) -> (r: String)
    ensures
        remote_text(r@),
{
    let mut words: Vec<u64> = Vec::new();
    let mut a = addr;
    loop
        decreases u64::MAX - a,
    {
        match crate::os::peek_word(pid, a) {
            Ok(w) => {
                words.push(w);
                if has_nul(w) {
                    break ;
                }
            },
            Err(_) => {
                break ;
            },
        }
        a = match a.checked_add(8) {
            Some(n) => n,
            None => {
                break ;
            },
        };
    }
    let r = string_from_words(&words);
    assert(r@ == bytes_text(take_until_nul(words_bytes(words@))));
    r
}

/// Round trip: text packed into memory words, then read back through the
/// terminator scan, is the original text, up to and excluding the terminator.
pub proof fn lemma_string_roundtrip(bs: Seq<u8>, ws: Seq<u64>)
    requires
        !contains_nul(bs),
        words_bytes(ws) == padded(bs),
    ensures
        take_until_nul(words_bytes(ws)) == bs,
        bytes_text(take_until_nul(words_bytes(ws))) == bytes_text(bs),
{
    let zeros = Seq::new(pad_len(bs.len()), |i: int| 0u8);
    lemma_scan_concat(bs, zeros);
    assert(zeros.len() >= 1);
    assert(zeros[0] == 0);
    assert(take_until_nul(zeros) =~= Seq::<u8>::empty());
    assert(bs + Seq::<u8>::empty() =~= bs);
}

} // verus!
