//! The wire envelope layer's foundation: a deterministic, self-describing
//! binary rendering of a flat list of typed fields.
//!
//! Each field carries a shape byte, so corrupted bytes are detected as a
//! decode failure rather than silently accepted, and decoding the encoding
//! of any field list returns exactly that list.

use crate::foreign::string_from_utf8;
use crate::invite::clone_bytes;
use vstd::bytes::{
    lemma_auto_spec_u64_to_from_le_bytes, spec_u64_from_le_bytes, spec_u64_to_le_bytes,
    u64_from_le_bytes, u64_to_le_bytes,
};
use vstd::prelude::*;
use vstd::slice::{slice_subrange, slice_to_vec};
use vstd::string::*;
use vstd::utf8::{decode_utf8, encode_utf8, valid_utf8};

verus! {

broadcast use vstd::string::group_string_axioms;

/// One typed field of a wire message.
#[derive(Debug, Clone, PartialEq, Eq)]
pub enum WireField {
    Bytes(Vec<u8>),
    Text(String),
    Number(u64),
    Tag(u8),
    Flag(bool),
}

/// The mathematical value of one wire field.
pub enum WireFieldView {
    Bytes(Seq<u8>),
    Text(Seq<char>),
    Number(u64),
    Tag(u8),
    Flag(bool),
}

impl View for WireField {
    type V = WireFieldView;

    open spec fn view(&self) -> WireFieldView {
        match self {
            WireField::Bytes(b) => WireFieldView::Bytes(b@),
            WireField::Text(s) => WireFieldView::Text(s@),
            WireField::Number(x) => WireFieldView::Number(*x),
            WireField::Tag(t) => WireFieldView::Tag(*t),
            WireField::Flag(b) => WireFieldView::Flag(*b),
        }
    }
}

/// A field can be rendered when its payload's length fits the length
/// prefix; every field an executable value can hold satisfies this.
pub open spec fn field_wf(f: WireFieldView) -> bool {
    match f {
        WireFieldView::Bytes(b) => b.len() <= u64::MAX,
        WireFieldView::Text(s) => encode_utf8(s).len() <= u64::MAX,
        _ => true,
    }
}

pub open spec fn fields_wf(fs: Seq<WireFieldView>) -> bool {
    forall|i: int| 0 <= i < fs.len() ==> field_wf(#[trigger] fs[i])
}

/// The byte rendering of one field: a shape byte, then the payload,
/// length-prefixed where the payload's size varies.
pub open spec fn enc_field(f: WireFieldView) -> Seq<u8> {
    match f {
        WireFieldView::Bytes(b) => seq![0u8] + spec_u64_to_le_bytes(b.len() as u64) + b,
        WireFieldView::Text(s) => seq![1u8] + spec_u64_to_le_bytes(encode_utf8(s).len() as u64)
            + encode_utf8(s),
        WireFieldView::Number(x) => seq![2u8] + spec_u64_to_le_bytes(x),
        WireFieldView::Tag(t) => seq![3u8, t],
        WireFieldView::Flag(b) => seq![
            4u8,
            if b {
                1u8
            } else {
                0u8
            },
        ],
    }
}

/// The byte rendering of a field list: the fields in order.
pub open spec fn enc_fields(fs: Seq<WireFieldView>) -> Seq<u8>
    decreases fs.len(),
{
    if fs.len() == 0 {
        Seq::empty()
    } else {
        enc_field(fs[0]) + enc_fields(fs.drop_first())
    }
}

/// Reads one length-prefixed payload from the front of `b`.
pub open spec fn dec_len_payload(b: Seq<u8>) -> Option<(Seq<u8>, Seq<u8>)> {
    if b.len() < 8 {
        None
    } else {
        let n = spec_u64_from_le_bytes(b.subrange(0, 8)) as int;
        if b.len() - 8 < n {
            None
        } else {
            Some((b.subrange(8, 8 + n), b.skip(8 + n)))
        }
    }
}

/// Reads one field from the front of `b`, returning it and the rest.
pub open spec fn dec_field(b: Seq<u8>) -> Option<(WireFieldView, Seq<u8>)> {
    if b.len() < 1 {
        None
    } else {
        let shape = b[0];
        let r = b.drop_first();
        if shape == 0 {
            match dec_len_payload(r) {
                Some((payload, rest)) => Some((WireFieldView::Bytes(payload), rest)),
                None => None,
            }
        } else if shape == 1 {
            match dec_len_payload(r) {
                Some((payload, rest)) => if valid_utf8(payload) {
                    Some((WireFieldView::Text(decode_utf8(payload)), rest))
                } else {
                    None
                },
                None => None,
            }
        } else if shape == 2 {
            if r.len() < 8 {
                None
            } else {
                Some((WireFieldView::Number(spec_u64_from_le_bytes(r.subrange(0, 8))), r.skip(8)))
            }
        } else if shape == 3 {
            if r.len() < 1 {
                None
            } else {
                Some((WireFieldView::Tag(r[0]), r.drop_first()))
            }
        } else if shape == 4 {
            if r.len() < 1 {
                None
            } else if r[0] == 1 {
                Some((WireFieldView::Flag(true), r.drop_first()))
            } else if r[0] == 0 {
                Some((WireFieldView::Flag(false), r.drop_first()))
            } else {
                None
            }
        } else {
            None
        }
    }
}

/// Reads a whole buffer as a field list; trailing bytes are a failure.
pub open spec fn dec_fields(b: Seq<u8>) -> Option<Seq<WireFieldView>>
    decreases b.len(),
{
    if b.len() == 0 {
        Some(Seq::empty())
    } else {
        match dec_field(b) {
            Some((f, rest)) => if rest.len() < b.len() {
                match dec_fields(rest) {
                    Some(fs) => Some(seq![f] + fs),
                    None => None,
                }
            } else {
                None
            },
            None => None,
        }
    }
}

/// Decoding reads back exactly the field that was encoded, leaving the
/// bytes that follow it untouched.
pub proof fn lemma_dec_field_prefix(f: WireFieldView, rest: Seq<u8>)
    requires
        field_wf(f),
    ensures
        dec_field(enc_field(f) + rest) == Some((f, rest)),
        enc_field(f).len() >= 1,
    decreases 0int,
{
    lemma_auto_spec_u64_to_from_le_bytes();
    let b = enc_field(f) + rest;
    let r = b.drop_first();
    match f {
        WireFieldView::Bytes(p) => {
            assert(b[0] == 0);
            assert(r =~= spec_u64_to_le_bytes(p.len() as u64) + p + rest);
            assert(r.subrange(0, 8) =~= spec_u64_to_le_bytes(p.len() as u64));
            assert(r.subrange(8, 8 + p.len() as int) =~= p);
            assert(r.skip(8 + p.len() as int) =~= rest);
        },
        WireFieldView::Text(s) => {
            let p = encode_utf8(s);
            assert(b[0] == 1);
            assert(r =~= spec_u64_to_le_bytes(p.len() as u64) + p + rest);
            assert(r.subrange(0, 8) =~= spec_u64_to_le_bytes(p.len() as u64));
            assert(r.subrange(8, 8 + p.len() as int) =~= p);
            assert(r.skip(8 + p.len() as int) =~= rest);
            vstd::utf8::encode_utf8_valid_utf8(s);
            vstd::utf8::encode_utf8_decode_utf8(s);
        },
        WireFieldView::Number(x) => {
            assert(b[0] == 2);
            assert(r =~= spec_u64_to_le_bytes(x) + rest);
            assert(r.subrange(0, 8) =~= spec_u64_to_le_bytes(x));
            assert(r.skip(8) =~= rest);
        },
        WireFieldView::Tag(t) => {
            assert(b[0] == 3);
            assert(r =~= seq![t] + rest);
            assert(r[0] == t);
            assert(r.drop_first() =~= rest);
        },
        WireFieldView::Flag(v) => {
            assert(b[0] == 4);
            let w = if v {
                1u8
            } else {
                0u8
            };
            assert(r =~= seq![w] + rest);
            assert(r[0] == w);
            assert(r.drop_first() =~= rest);
        },
    }
}

/// Round trip at the field-list level: decoding the encoding of any
/// well-formed field list returns exactly that list.
pub proof fn lemma_dec_fields_round_trip(fs: Seq<WireFieldView>)
    requires
        fields_wf(fs),
    ensures
        dec_fields(enc_fields(fs)) == Some(fs),
    decreases fs.len(),
{
    if fs.len() == 0 {
        assert(enc_fields(fs) =~= Seq::<u8>::empty());
    } else {
        let rest = enc_fields(fs.drop_first());
        lemma_dec_field_prefix(fs[0], rest);
        assert(fields_wf(fs.drop_first())) by {
            assert(forall|i: int|
                0 <= i < fs.drop_first().len() ==> #[trigger] fs.drop_first()[i] == fs[i + 1]);
        }
        lemma_dec_fields_round_trip(fs.drop_first());
        let b = enc_fields(fs);
        assert(b == enc_field(fs[0]) + rest);
        assert(b.len() > 0) by {
            assert(enc_field(fs[0]).len() >= 1);
        }
        assert(dec_field(b) == Some((fs[0], rest)));
        assert(seq![fs[0]] + fs.drop_first() =~= fs);
    }
}

/// Renders a field list into bytes.
pub fn encode_fields(fs: &Vec<WireField>) -> (r: Vec<u8>)
    ensures
        r@ == enc_fields(fs@.map_values(|f: WireField| f@)),
{
    let ghost views = fs@.map_values(|f: WireField| f@);
    let mut out: Vec<u8> = Vec::new();
    let mut i: usize = 0;
    while i < fs.len()
        invariant
            0 <= i <= fs@.len(),
            views == fs@.map_values(|f: WireField| f@),
            views.len() == fs@.len(),
            out@ == enc_fields(views.take(i as int)),
        decreases fs@.len() - i,
    {
        proof {
            assert(views[i as int] == fs@[i as int]@);
            assert(views.take(i + 1) =~= views.take(i as int).push(views[i as int]));
            lemma_enc_fields_snoc(views.take(i as int), views[i as int]);
        }
        match &fs[i] {
            WireField::Bytes(b) => {
                out.push(0u8);
                let mut prefix = u64_to_le_bytes(b.len() as u64);
                out.append(&mut prefix);
                let mut body = clone_bytes(b);
                out.append(&mut body);
            },
            WireField::Text(s) => {
                out.push(1u8);
                let body = s.as_str().as_bytes_vec();
                let mut prefix = u64_to_le_bytes(body.len() as u64);
                out.append(&mut prefix);
                let mut body = body;
                out.append(&mut body);
            },
            WireField::Number(x) => {
                out.push(2u8);
                let mut body = u64_to_le_bytes(*x);
                out.append(&mut body);
            },
            WireField::Tag(t) => {
                out.push(3u8);
                out.push(*t);
            },
            WireField::Flag(v) => {
                out.push(4u8);
                out.push(
                    if *v {
                        1u8
                    } else {
                        0u8
                    },
                );
            },
        }
        proof {
            assert(out@ =~= enc_fields(views.take(i as int)) + enc_field(views[i as int]));
        }
        i = i + 1;
    }
    proof {
        assert(views.take(views.len() as int) =~= views);
    }
    out
}

/// Appending one field to a list appends its rendering to the bytes.
proof fn lemma_enc_fields_snoc(fs: Seq<WireFieldView>, f: WireFieldView)
    ensures
        enc_fields(fs.push(f)) == enc_fields(fs) + enc_field(f),
    decreases fs.len(),
{
    if fs.len() == 0 {
        assert(fs.push(f).len() == 1);
        assert(fs.push(f)[0] == f);
        assert(fs.push(f).drop_first() =~= Seq::<WireFieldView>::empty());
        assert(enc_fields(fs.push(f)) == enc_field(f) + enc_fields(Seq::<WireFieldView>::empty()));
        assert(enc_field(f) + Seq::<u8>::empty() =~= enc_field(f));
        assert(enc_fields(fs) + enc_field(f) =~= enc_field(f));
    } else {
        assert(fs.push(f)[0] == fs[0]);
        assert(fs.push(f).drop_first() =~= fs.drop_first().push(f));
        lemma_enc_fields_snoc(fs.drop_first(), f);
        assert(enc_fields(fs.push(f)) =~= enc_fields(fs) + enc_field(f));
    }
}

/// Parses a whole buffer back into its field list; any corruption —
/// an unknown shape byte, a truncated payload, invalid text, trailing
/// bytes — is a decode failure.
pub fn decode_fields(buf: &Vec<u8>) -> (r: Option<Vec<WireField>>)
    ensures
        match r {
            Some(fs) => dec_fields(buf@) == Some(fs@.map_values(|f: WireField| f@)),
            None => dec_fields(buf@) is None,
        },
{
    let mut out: Vec<WireField> = Vec::new();
    let mut pos: usize = 0;
    let n = buf.len();
    proof {
        assert(buf@.skip(0) =~= buf@);
        assert(out@.map_values(|f: WireField| f@) =~= Seq::<WireFieldView>::empty());
        let o = dec_fields(buf@);
        if o is Some {
            assert(Seq::<WireFieldView>::empty() + o.unwrap() =~= o.unwrap());
        }
    }
    while pos < n
        invariant
            0 <= pos <= n,
            n == buf@.len(),
            ({
                let done = out@.map_values(|f: WireField| f@);
                match dec_fields(buf@.skip(pos as int)) {
                    Some(fs) => dec_fields(buf@) == Some(done + fs),
                    None => dec_fields(buf@) is None,
                }
            }),
        decreases n - pos,
    {
        let ghost pre_rest = buf@.skip(pos as int);
        let ghost done_pre = out@.map_values(|f: WireField| f@);
        let shape = buf[pos];
        let mut consumed: usize = 1;
        let field: WireField;
        if shape == 0 || shape == 1 {
            if n - pos < 9 {
                proof {
                    assert(pre_rest.drop_first().len() < 8);
                    assert(dec_field(pre_rest) is None);
                }
                return None;
            }
            let len_slice = slice_subrange(buf.as_slice(), pos + 1, pos + 9);
            let len64 = u64_from_le_bytes(len_slice);
            proof {
                assert(len_slice@ =~= pre_rest.drop_first().subrange(0, 8));
            }
            let avail: u64 = (n - pos - 9) as u64;
            if avail < len64 {
                proof {
                    assert(pre_rest.drop_first().len() - 8 < len64 as int);
                    assert(dec_len_payload(pre_rest.drop_first()) is None);
                    assert(dec_field(pre_rest) is None);
                }
                return None;
            }
            let len = len64 as usize;
            let payload_slice = slice_subrange(buf.as_slice(), pos + 9, pos + 9 + len);
            proof {
                assert(payload_slice@ =~= pre_rest.drop_first().subrange(8, 8 + len64 as int));
                assert(pre_rest.drop_first().skip(8 + len64 as int) =~= buf@.skip(
                    pos + 9 + len64 as int,
                ));
            }
            if shape == 0 {
                field = WireField::Bytes(slice_to_vec(payload_slice));
            } else {
                let bytes = slice_to_vec(payload_slice);
                match string_from_utf8(bytes) {
                    Some(s) => {
                        field = WireField::Text(s);
                    },
                    None => {
                        proof {
                            assert(dec_field(pre_rest) is None);
                        }
                        return None;
                    },
                }
            }
            consumed = 9 + len;
        } else if shape == 2 {
            if n - pos < 9 {
                proof {
                    assert(pre_rest.drop_first().len() < 8);
                    assert(dec_field(pre_rest) is None);
                }
                return None;
            }
            let len_slice = slice_subrange(buf.as_slice(), pos + 1, pos + 9);
            let x = u64_from_le_bytes(len_slice);
            proof {
                assert(len_slice@ =~= pre_rest.drop_first().subrange(0, 8));
                assert(pre_rest.drop_first().skip(8) =~= buf@.skip(pos + 9));
            }
            field = WireField::Number(x);
            consumed = 9;
        } else if shape == 3 {
            if n - pos < 2 {
                proof {
                    assert(dec_field(pre_rest) is None);
                }
                return None;
            }
            let t = buf[pos + 1];
            proof {
                assert(pre_rest.drop_first()[0] == t);
                assert(pre_rest.drop_first().drop_first() =~= buf@.skip(pos + 2));
            }
            field = WireField::Tag(t);
            consumed = 2;
        } else if shape == 4 {
            if n - pos < 2 {
                proof {
                    assert(dec_field(pre_rest) is None);
                }
                return None;
            }
            let v = buf[pos + 1];
            proof {
                assert(pre_rest.drop_first()[0] == v);
                assert(pre_rest.drop_first().drop_first() =~= buf@.skip(pos + 2));
            }
            if v == 1 {
                field = WireField::Flag(true);
            } else if v == 0 {
                field = WireField::Flag(false);
            } else {
                proof {
                    assert(dec_field(pre_rest) is None);
                }
                return None;
            }
            consumed = 2;
        } else {
            proof {
                assert(dec_field(pre_rest) is None);
            }
            return None;
        }
        proof {
            assert(dec_field(pre_rest) == Some((field@, buf@.skip(pos + consumed as int))));
        }
        out.push(field);
        proof {
            assert(out@.map_values(|f: WireField| f@) =~= done_pre.push(
                out@.last()@,
            ));
            let o = dec_fields(buf@.skip(pos + consumed as int));
            if o is Some {
                let fs = o.unwrap();
                assert(done_pre.push(out@.last()@) + fs =~= done_pre + (seq![out@.last()@] + fs));
            }
        }
        pos = pos + consumed;
    }
    proof {
        assert(buf@.skip(n as int) =~= Seq::<u8>::empty());
        assert(out@.map_values(|f: WireField| f@) + Seq::<WireFieldView>::empty() =~= out@.map_values(
            |f: WireField| f@,
        ));
    }
    Some(out)
}

} // verus!
