//! Frames are aligned and self-describing: the length of a frame is a
//! multiple of four, and the frame of a message determines the message.

use vstd::prelude::*;
use vstd::utf8::{encode_utf8, encode_utf8_decode_utf8};
use crate::codec::{
    arg_data, args_data, be_bytes, encodable, encodable_before, message_frame, padded,
    representable, tag_of, tags_of, terminable,
};
use crate::coerce::{coerced, RawView};
use crate::text::zero_byte_iff_nul;
use crate::value::{ArgView, MessageView};

verus! {

/// The length of a padded string is a multiple of four, and more than the
/// length of the string by one to four.
pub proof fn padded_is_aligned(bytes: Seq<u8>)
    ensures
        padded(bytes).len() % 4 == 0,
        bytes.len() < padded(bytes).len() <= bytes.len() + 4,
{
}

/// The length of the data of arguments is a multiple of four.
pub proof fn args_data_is_aligned(args: Seq<ArgView>)
    ensures
        args_data(args).len() % 4 == 0,
    decreases args.len(),
{
    if args.len() > 0 {
        args_data_is_aligned(args.drop_last());
        match args.last() {
            ArgView::Str(s) => {
                padded_is_aligned(encode_utf8(s));
            },
            _ => {},
        }
    }
}

/// The length of a frame is a multiple of four.
pub proof fn frame_is_aligned(m: MessageView)
    ensures
        message_frame(m).len() % 4 == 0,
{
    padded_is_aligned(encode_utf8(m.addr));
    padded_is_aligned(tags_of(m.args));
    args_data_is_aligned(m.args);
}

/// Where two padded strings without zero bytes, each followed by more
/// bytes, make up the same bytes, the strings are the same and so is what
/// follows them.
pub proof fn padded_splits_one_way(a: Seq<u8>, x: Seq<u8>, b: Seq<u8>, y: Seq<u8>)
    requires
        !a.contains(0u8),
        !b.contains(0u8),
        padded(a) + x == padded(b) + y,
    ensures
        a == b,
        x == y,
{
    let l = padded(a) + x;
    let r = padded(b) + y;
    if a.len() < b.len() {
        assert(l[a.len() as int] == 0u8);
        assert(r[a.len() as int] == b[a.len() as int]);
        assert(b.contains(0u8));
    }
    if b.len() < a.len() {
        assert(r[b.len() as int] == 0u8);
        assert(l[b.len() as int] == a[b.len() as int]);
        assert(a.contains(0u8));
    }
    assert(a =~= b) by {
        assert forall|i: int| 0 <= i < a.len() implies a[i] == b[i] by {
            assert(l[i] == a[i]);
            assert(r[i] == b[i]);
        }
    }
    assert(x =~= y) by {
        assert(l.len() == r.len());
        let n = padded(a).len() as int;
        assert forall|i: int| 0 <= i < x.len() implies x[i] == y[i] by {
            assert(l[n + i] == x[i]);
            assert(r[n + i] == y[i]);
        }
    }
}

/// The four bytes of a number determine the number.
pub proof fn be_bytes_determine(v: u32, w: u32)
    requires
        be_bytes(v) == be_bytes(w),
    ensures
        v == w,
{
    assert(be_bytes(v)[0] == be_bytes(w)[0]);
    assert(be_bytes(v)[1] == be_bytes(w)[1]);
    assert(be_bytes(v)[2] == be_bytes(w)[2]);
    assert(be_bytes(v)[3] == be_bytes(w)[3]);
    assert(v == w) by (bit_vector)
        requires
            (v >> 24) as u8 == (w >> 24) as u8,
            (v >> 16) as u8 == (w >> 16) as u8,
            (v >> 8) as u8 == (w >> 8) as u8,
            v as u8 == w as u8,
    ;
}

/// The data of two lists, one after the other, is the data of the one list
/// followed by the data of the other.
pub proof fn args_data_concat(a: Seq<ArgView>, b: Seq<ArgView>)
    ensures
        args_data(a + b) == args_data(a) + args_data(b),
    decreases b.len(),
{
    if b.len() == 0 {
        assert(a + b =~= a);
        assert(args_data(a) + args_data(b) =~= args_data(a));
    } else {
        assert((a + b).drop_last() =~= a + b.drop_last());
        assert((a + b).last() == b.last());
        args_data_concat(a, b.drop_last());
        assert(args_data(a + b) =~= args_data(a) + args_data(b));
    }
}

/// The data of a list is the data of its first argument followed by the
/// data of the others.
pub proof fn args_data_first(args: Seq<ArgView>)
    requires
        args.len() > 0,
    ensures
        args_data(args) == arg_data(args[0]) + args_data(args.drop_first()),
{
    let head = seq![args[0]];
    assert(args =~= head + args.drop_first());
    args_data_concat(head, args.drop_first());
    assert(head.drop_last() =~= Seq::<ArgView>::empty());
    assert(args_data(head.drop_last()) =~= Seq::<u8>::empty());
    assert(head.last() == args[0]);
    assert(args_data(head) =~= arg_data(args[0]));
}

/// Where two arguments with a place in a frame have the same type tag, and
/// their data, each followed by more bytes, make up the same bytes, the
/// arguments are the same and so is what follows them.
pub proof fn arg_splits_one_way(a: ArgView, x: Seq<u8>, b: ArgView, y: Seq<u8>)
    requires
        encodable(a),
        encodable(b),
        tag_of(a) == tag_of(b),
        arg_data(a) + x == arg_data(b) + y,
    ensures
        a == b,
        x == y,
{
    let l = arg_data(a) + x;
    let r = arg_data(b) + y;
    match a {
        ArgView::Int(v) => {
            let w = b->Int_0;
            numbers_split_one_way(v as u32, x, w as u32, y);
            assert(v == w) by (bit_vector)
                requires
                    v as u32 == w as u32,
            ;
        },
        ArgView::Float(v) => {
            let w = b->Float_0;
            numbers_split_one_way(v, x, w, y);
        },
        ArgView::Str(s) => {
            let t = b->Str_0;
            zero_byte_iff_nul(s);
            zero_byte_iff_nul(t);
            padded_splits_one_way(encode_utf8(s), x, encode_utf8(t), y);
            encode_utf8_decode_utf8(s);
            encode_utf8_decode_utf8(t);
        },
        ArgView::Other => {},
    }
}

/// Where the bytes of two numbers, each followed by more bytes, make up the
/// same bytes, the numbers are the same and so is what follows them.
proof fn numbers_split_one_way(v: u32, x: Seq<u8>, w: u32, y: Seq<u8>)
    requires
        be_bytes(v) + x == be_bytes(w) + y,
    ensures
        v == w,
        x == y,
{
    let l = be_bytes(v) + x;
    let r = be_bytes(w) + y;
    assert(be_bytes(v).len() == 4 && be_bytes(w).len() == 4);
    assert(be_bytes(v) =~= be_bytes(w)) by {
        assert forall|i: int| 0 <= i < 4 implies be_bytes(v)[i] == be_bytes(w)[i] by {
            assert(l[i] == be_bytes(v)[i]);
            assert(r[i] == be_bytes(w)[i]);
        }
    }
    be_bytes_determine(v, w);
    assert(l.len() == 4 + x.len());
    assert(r.len() == 4 + y.len());
    assert(x.len() == y.len());
    assert(x =~= y) by {
        assert forall|i: int| 0 <= i < x.len() implies x[i] == y[i] by {
            assert(l[4 + i] == x[i]);
            assert(r[4 + i] == y[i]);
        }
    }
}

/// The data of a list of arguments determines the arguments, given their
/// type tags.
pub proof fn data_determines_args(a: Seq<ArgView>, b: Seq<ArgView>)
    requires
        a.len() == b.len(),
        forall|i: int| 0 <= i < a.len() ==> tag_of(#[trigger] a[i]) == tag_of(b[i]),
        encodable_before(a, a.len() as int),
        encodable_before(b, b.len() as int),
        args_data(a) == args_data(b),
    ensures
        a == b,
    decreases a.len(),
{
    if a.len() == 0 {
        assert(a =~= b);
    } else {
        args_data_first(a);
        args_data_first(b);
        let ra = a.drop_first();
        let rb = b.drop_first();
        assert(encodable(a[0]));
        assert(encodable(b[0]));
        assert(tag_of(a[0]) == tag_of(b[0]));
        arg_splits_one_way(a[0], args_data(ra), b[0], args_data(rb));
        assert forall|i: int| 0 <= i < ra.len() implies tag_of(#[trigger] ra[i]) == tag_of(
            rb[i],
        ) by {
            assert(ra[i] == a[i + 1]);
            assert(rb[i] == b[i + 1]);
        }
        assert forall|j: int| 0 <= j < ra.len() implies encodable(#[trigger] ra[j]) by {
            assert(ra[j] == a[j + 1]);
        }
        assert forall|j: int| 0 <= j < rb.len() implies encodable(#[trigger] rb[j]) by {
            assert(rb[j] == b[j + 1]);
        }
        data_determines_args(ra, rb);
        assert(a =~= b) by {
            assert forall|i: int| 0 <= i < a.len() implies a[i] == b[i] by {
                if i > 0 {
                    assert(a[i] == ra[i - 1]);
                    assert(b[i] == rb[i - 1]);
                }
            }
        }
    }
}

/// The type tags of arguments that have a place in a frame hold no zero
/// byte.
proof fn tags_hold_no_zero(args: Seq<ArgView>)
    requires
        encodable_before(args, args.len() as int),
    ensures
        !tags_of(args).contains(0u8),
{
    let tags = tags_of(args);
    if tags.contains(0u8) {
        let i = choose|i: int| 0 <= i < tags.len() && tags[i] == 0u8;
        assert(i > 0);
        assert(tags[i] == tag_of(args[i - 1]));
        assert(encodable(args[i - 1]));
    }
}

/// The frame determines the message: two messages with the same frame are
/// the same message, in address and in arguments.
pub proof fn frame_determines_message(a: MessageView, b: MessageView)
    requires
        representable(a),
        representable(b),
        message_frame(a) == message_frame(b),
    ensures
        a == b,
{
    let addr_a = encode_utf8(a.addr);
    let addr_b = encode_utf8(b.addr);
    let rest_a = padded(tags_of(a.args)) + args_data(a.args);
    let rest_b = padded(tags_of(b.args)) + args_data(b.args);
    assert(message_frame(a) =~= padded(addr_a) + rest_a);
    assert(message_frame(b) =~= padded(addr_b) + rest_b);
    zero_byte_iff_nul(a.addr);
    zero_byte_iff_nul(b.addr);
    padded_splits_one_way(addr_a, rest_a, addr_b, rest_b);
    encode_utf8_decode_utf8(a.addr);
    encode_utf8_decode_utf8(b.addr);
    assert(a.addr == b.addr);
    tags_hold_no_zero(a.args);
    tags_hold_no_zero(b.args);
    padded_splits_one_way(tags_of(a.args), args_data(a.args), tags_of(b.args), args_data(b.args));
    assert(a.args.len() == b.args.len()) by {
        assert(tags_of(a.args).len() == a.args.len() + 1);
        assert(tags_of(b.args).len() == b.args.len() + 1);
    }
    assert forall|i: int| 0 <= i < a.args.len() implies tag_of(#[trigger] a.args[i]) == tag_of(
        b.args[i],
    ) by {
        assert(tags_of(a.args)[i + 1] == tag_of(a.args[i]));
        assert(tags_of(b.args)[i + 1] == tag_of(b.args[i]));
    }
    data_determines_args(a.args, b.args);
}

/// Arguments that coercion yields have a place in a frame, as long as the
/// values hold no zero character: with an address path they make a message
/// that has a frame.
pub proof fn coerced_arguments_are_encodable(tags: Seq<char>, values: Seq<RawView>, n: nat)
    requires
        n <= tags.len(),
        n <= values.len(),
        forall|i: int| 0 <= i < n ==> terminable(#[trigger] values[i].text),
    ensures
        encodable_before(coerced(tags, values, n), coerced(tags, values, n).len() as int),
    decreases n,
{
    if n > 0 {
        coerced_arguments_are_encodable(tags, values, (n - 1) as nat);
        let head = coerced(tags, values, (n - 1) as nat);
        let all = coerced(tags, values, n);
        assert(terminable(values[n - 1].text));
        assert forall|j: int| 0 <= j < all.len() implies encodable(#[trigger] all[j]) by {
            if j < head.len() {
                assert(all[j] == head[j]);
            }
        }
    }
}

} // verus!
