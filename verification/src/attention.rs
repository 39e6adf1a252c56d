//! Shape and index planning for multi-head attention: the host-side
//! decisions of the attention module — per-head widths, the four-dimensional
//! views and permutations of the projected tensors, mask slicing, and
//! KV-cache write positions. The floating-point tensor arithmetic itself is
//! the device's work; this module fixes every shape it runs under.

use vstd::prelude::*;
use crate::error::OperationError;
use crate::shape::{Shape, numel_of};

verus! {

/// A reordering of the four axes of an attention tensor.
pub open spec fn is_permutation4(p: Seq<usize>) -> bool {
    &&& p.len() == 4
    &&& p.contains(0usize)
    &&& p.contains(1usize)
    &&& p.contains(2usize)
    &&& p.contains(3usize)
}

/// The second dimension of a projection weight: the model width the
/// attention layer operates in.
pub fn attention_n_state(q_weight_shape: &Shape) -> (r: usize)
    requires
        q_weight_shape@.len() >= 2,
    ensures
        r == q_weight_shape@[1],
{
    q_weight_shape.dim(1)
}

/// Where the next `n_ctx` rows of keys and values land in a KV cache that
/// already holds `prev_entries` rows, and the view of the grown cache.
pub struct CachePlan {
    pub new_entries: usize,
    pub write_offset: Shape,
    pub cache_shape: Shape,
}

/// Plan one KV-cache update: the new keys are written at row `prev_entries`,
/// and the cache is then viewed as `[bs, prev_entries + n_ctx, n_state]`.
pub fn kv_cache_plan(prev_entries: usize, n_ctx: usize, bs: usize, n_state: usize) -> (r: Result<
    CachePlan,
    OperationError,
>)
    requires
        prev_entries + n_ctx <= usize::MAX,
    ensures
        r matches Ok(p) && p.new_entries == prev_entries + n_ctx && p.write_offset@ =~= seq![
            0usize,
            prev_entries,
            0usize,
        ] && p.cache_shape@ =~= seq![bs, (prev_entries + n_ctx) as usize, n_state],
{
    let new_entries = prev_entries + n_ctx;
    let mut off: Vec<usize> = Vec::new();
    off.push(0);
    off.push(prev_entries);
    off.push(0);
    let mut cs: Vec<usize> = Vec::new();
    cs.push(bs);
    cs.push(new_entries);
    cs.push(n_state);
    Ok(CachePlan {
        new_entries,
        write_offset: Shape::new(off),
        cache_shape: Shape::new(cs),
    })
}

/// The complete shape plan of one scaled-dot-product attention invocation:
/// the four-dimensional views the three projections are reshaped to, the
/// axis permutations applied to them, the causal mask slice, and the view
/// the weighted values are flattened back to.
pub struct QkvPlan {
    pub hdim: usize,
    pub q_shape: Shape,
    pub k_shape: Shape,
    pub v_shape: Shape,
    pub q_permute: Shape,
    pub k_permute: Shape,
    pub v_permute: Shape,
    pub mask_rows: Option<usize>,
    pub out_shape: Shape,
}

/// Plan the shapes of one attention invocation over `n_heads` heads: the
/// query is `[bs, n_ctx, n_state]`, keys and values are `[k0, k1, _]` and
/// `[v0, v1, _]`. The head width is `n_state / n_heads`; the plan exists
/// exactly when the heads divide the model width, since the reshaped views
/// must hold exactly the elements of the projections. The causal mask is
/// sliced to the query's context length; a non-causal mask is used whole.
#[verifier::rlimit(50)]
pub fn qkv_attention_plan(
    bs: usize,
    n_ctx: usize,
    n_state: usize,
    k0: usize,
    k1: usize,
    v0: usize,
    v1: usize,
    n_heads: usize,
    has_mask: bool,
    is_causal: bool,
) -> (r: Result<QkvPlan, OperationError>)
    ensures
        r is Ok <==> n_heads >= 1 && n_state as int % n_heads as int == 0,
        r is Err ==> r == Err::<QkvPlan, OperationError>(
            OperationError::InvariantViolation { got: n_state, min: n_heads, max: n_heads },
        ),
        r matches Ok(p) ==> p.hdim == n_state as int / n_heads as int,
        r matches Ok(p) ==> p.q_shape@ =~= seq![bs, n_ctx, n_heads, p.hdim],
        r matches Ok(p) ==> p.k_shape@ =~= seq![k0, k1, n_heads, p.hdim],
        r matches Ok(p) ==> p.v_shape@ =~= seq![v0, v1, n_heads, p.hdim],
        r matches Ok(p) ==> p.q_permute@ =~= seq![0usize, 2usize, 1usize, 3usize],
        r matches Ok(p) ==> p.k_permute@ =~= seq![0usize, 2usize, 3usize, 1usize],
        r matches Ok(p) ==> p.v_permute@ =~= seq![0usize, 2usize, 1usize, 3usize],
        r matches Ok(p) ==> is_permutation4(p.q_permute@) && is_permutation4(p.k_permute@)
            && is_permutation4(p.v_permute@),
        r matches Ok(p) ==> p.mask_rows == if has_mask && is_causal {
            Some(n_ctx)
        } else {
            None::<usize>
        },
        r matches Ok(p) ==> p.out_shape@ =~= seq![bs, n_ctx, n_state],
        r matches Ok(p) ==> numel_of(p.q_shape@) == numel_of(p.out_shape@),
{
    if n_heads == 0 || n_state % n_heads != 0 {
        return Err(OperationError::InvariantViolation { got: n_state, min: n_heads, max: n_heads });
    }
    let hdim = n_state / n_heads;
    let q_shape = dims4(bs, n_ctx, n_heads, hdim);
    let k_shape = dims4(k0, k1, n_heads, hdim);
    let v_shape = dims4(v0, v1, n_heads, hdim);
    let q_permute = dims4(0, 2, 1, 3);
    let k_permute = dims4(0, 2, 3, 1);
    let v_permute = dims4(0, 2, 1, 3);
    let mask_rows = if has_mask && is_causal {
        Some(n_ctx)
    } else {
        None
    };
    let mut out: Vec<usize> = Vec::new();
    out.push(bs);
    out.push(n_ctx);
    out.push(n_state);
    let out_shape = Shape::new(out);
    proof {
        lemma_view_preserves_numel(bs, n_ctx, n_state, n_heads, hdim as usize);
        assert(out_shape@ =~= seq![bs, n_ctx, n_state]);
        assert(numel_of(q_shape@) == numel_of(seq![bs, n_ctx, n_heads, hdim]));
        assert(numel_of(out_shape@) == numel_of(seq![bs, n_ctx, n_state]));
        assert(is_permutation4(q_permute@)) by {
            assert(q_permute@[0] == 0usize && q_permute@[2] == 1usize && q_permute@[1] == 2usize
                && q_permute@[3] == 3usize);
        }
        assert(is_permutation4(k_permute@)) by {
            assert(k_permute@[0] == 0usize && k_permute@[3] == 1usize && k_permute@[1] == 2usize
                && k_permute@[2] == 3usize);
        }
        assert(is_permutation4(v_permute@)) by {
            assert(v_permute@[0] == 0usize && v_permute@[2] == 1usize && v_permute@[1] == 2usize
                && v_permute@[3] == 3usize);
        }
    }
    Ok(QkvPlan {
        hdim,
        q_shape,
        k_shape,
        v_shape,
        q_permute,
        k_permute,
        v_permute,
        mask_rows,
        out_shape,
    })
}

/// A four-dimensional shape.
fn dims4(a: usize, b: usize, c: usize, d: usize) -> (r: Shape)
    ensures
        r@ =~= seq![a, b, c, d],
{
    let mut v: Vec<usize> = Vec::new();
    v.push(a);
    v.push(b);
    v.push(c);
    v.push(d);
    Shape::new(v)
}

/// Law: reshaping `[bs, n_ctx, n_state]` to `[bs, n_ctx, n_heads, hdim]`
/// with `n_state == n_heads * hdim` moves no elements — both views hold the
/// same count, so the reshape is a valid view of the same storage.
pub proof fn lemma_view_preserves_numel(
    bs: usize,
    n_ctx: usize,
    n_state: usize,
    n_heads: usize,
    hdim: usize,
)
    requires
        n_heads >= 1,
        n_state as int % n_heads as int == 0,
        hdim == n_state as int / n_heads as int,
    ensures
        numel_of(seq![bs, n_ctx, n_heads, hdim]) == numel_of(seq![bs, n_ctx, n_state]),
{
    let four = seq![bs, n_ctx, n_heads, hdim];
    let three = seq![bs, n_ctx, n_state];
    assert(n_heads * hdim == n_state) by (nonlinear_arith)
        requires
            n_heads >= 1,
            n_state as int % n_heads as int == 0,
            hdim == n_state as int / n_heads as int,
    ;
    reveal_with_fuel(numel_of, 5);
    assert(four.drop_first() =~= seq![n_ctx, n_heads, hdim]);
    assert(four.drop_first().drop_first() =~= seq![n_heads, hdim]);
    assert(four.drop_first().drop_first().drop_first() =~= seq![hdim]);
    assert(four.drop_first().drop_first().drop_first().drop_first() =~= Seq::<usize>::empty());
    assert(three.drop_first() =~= seq![n_ctx, n_state]);
    assert(three.drop_first().drop_first() =~= seq![n_state]);
    assert(three.drop_first().drop_first().drop_first() =~= Seq::<usize>::empty());
    assert(numel_of(four) == bs * (n_ctx * (n_heads * (hdim * 1))));
    assert(numel_of(three) == bs * (n_ctx * (n_state * 1)));
    assert(bs * (n_ctx * (n_heads * (hdim * 1))) == bs * (n_ctx * (n_state * 1)))
        by (nonlinear_arith)
        requires
            n_heads * hdim == n_state,
    ;
}

} // verus!
