//! Where the food may go: the free cells of the field, and a uniform draw among them.
use vstd::prelude::*;
use rand::Rng;
use rand::rngs::ThreadRng;
use vstd::set_lib::{lemma_int_range, lemma_len_subset, set_int_range};
use crate::grid::{Pos, FIELD_W, FIELD_H, in_grid};
use crate::snake::{Apple, SnakeBody, cells, on_body};

verus! {

broadcast use vstd::seq_lib::group_seq_properties;

#[verifier::external_type_specification]
#[verifier::external_body]
pub struct ExThreadRng(rand::rngs::ThreadRng);

/// Row-major rank of a cell of the field.
pub open spec fn rank(p: Pos) -> int {
    p.y * FIELD_W + p.x
}

/// A cell of the field that neither the head nor any body segment occupies.
pub open spec fn is_free(head: Pos, c: Seq<Pos>, p: Pos) -> bool {
    in_grid(p) && p != head && !on_body(c, p)
}

/// Whether some cell of the field is free.
pub open spec fn has_free(head: Pos, c: Seq<Pos>) -> bool {
    exists|p: Pos| is_free(head, c, p)
}

/// Whether some segment of `body` stands on `p`.
pub fn occupied(body: &Vec<SnakeBody>, p: Pos) -> (r: bool)
    ensures
        r == on_body(cells(body@), p),
{
    let mut i: usize = 0;
    while i < body.len()
        invariant
            i <= body@.len(),
            forall|j: int| 0 <= j < i ==> body@[j].pos != p,
        decreases body@.len() - i,
    {
        if body[i].pos == p {
            assert(cells(body@)[i as int] == p);
            return true;
        }
        i = i + 1;
    }
    false
}

/// The free cells of the field, each once, in row-major order.
pub fn free_cells(head: Pos, body: &Vec<SnakeBody>) -> (r: Vec<Pos>)
    ensures
        forall|i: int| 0 <= i < r@.len() ==> is_free(head, cells(body@), #[trigger] r@[i]),
        forall|p: Pos| is_free(head, cells(body@), p) ==> r@.contains(p),
        forall|i: int, j: int| 0 <= i < j < r@.len() ==> rank(r@[i]) < rank(r@[j]),
{
    let ghost c = cells(body@);
    let mut r: Vec<Pos> = Vec::new();
    let mut y: i32 = 0;
    while y < FIELD_H
        invariant
            0 <= y <= FIELD_H,
            c == cells(body@),
            forall|i: int| 0 <= i < r@.len() ==> is_free(head, c, #[trigger] r@[i]),
            forall|i: int| 0 <= i < r@.len() ==> #[trigger] r@[i].y < y,
            forall|p: Pos| is_free(head, c, p) && p.y < y ==> r@.contains(p),
            forall|i: int, j: int| 0 <= i < j < r@.len() ==> rank(r@[i]) < rank(r@[j]),
        decreases FIELD_H - y,
    {
        let mut x: i32 = 0;
        while x < FIELD_W
            invariant
                0 <= y < FIELD_H,
                0 <= x <= FIELD_W,
                c == cells(body@),
                forall|i: int| 0 <= i < r@.len() ==> is_free(head, c, #[trigger] r@[i]),
                forall|i: int| 0 <= i < r@.len() ==> rank(#[trigger] r@[i]) < y * FIELD_W + x,
                forall|p: Pos| is_free(head, c, p) && rank(p) < y * FIELD_W + x ==> r@.contains(p),
                forall|i: int, j: int| 0 <= i < j < r@.len() ==> rank(r@[i]) < rank(r@[j]),
            decreases FIELD_W - x,
        {
            let p = Pos { x, y };
            if p != head && !occupied(body, p) {
                let ghost old_r = r@;
                r.push(p);
                assert forall|q: Pos| is_free(head, c, q) && rank(q) < y * FIELD_W + x + 1 implies r@.contains(q) by {
                    if rank(q) == y * FIELD_W + x {
                        assert(q == p);
                        assert(r@[old_r.len() as int] == p);
                    } else {
                        assert(old_r.contains(q));
                        let k = choose|k: int| 0 <= k < old_r.len() && old_r[k] == q;
                        assert(r@[k] == q);
                    }
                }
            } else {
                assert forall|q: Pos| is_free(head, c, q) && rank(q) < y * FIELD_W + x + 1 implies r@.contains(q) by {
                    if rank(q) == y * FIELD_W + x {
                        assert(q == p);
                    }
                }
            }
            x = x + 1;
        }
        assert forall|i: int| 0 <= i < r@.len() implies #[trigger] r@[i].y < y + 1 by {
            assert(in_grid(r@[i]));
        }
        assert forall|p: Pos| is_free(head, c, p) && p.y < y + 1 implies r@.contains(p) by {
            assert(rank(p) < y * FIELD_W + FIELD_W);
        }
        y = y + 1;
    }
    r
}

/// A field in which the head and body cover fewer cells than the field has keeps
/// a free cell.
pub proof fn lemma_free_cell_exists(head: Pos, c: Seq<Pos>)
    requires
        c.len() + 1 < FIELD_W * FIELD_H,
    ensures
        has_free(head, c),
{
    let all = c.push(head);
    let ranks = all.map_values(|p: Pos| rank(p));
    ranks.lemma_cardinality_of_set();
    lemma_int_range(0, FIELD_W * FIELD_H);
    if forall|k: int| 0 <= k < FIELD_W * FIELD_H ==> ranks.to_set().contains(k) {
        assert(set_int_range(0, FIELD_W * FIELD_H).subset_of(ranks.to_set()));
        lemma_len_subset(set_int_range(0, FIELD_W * FIELD_H), ranks.to_set());
    }
    let k = choose|k: int| 0 <= k < FIELD_W * FIELD_H && !ranks.to_set().contains(k);
    let w = FIELD_W as int;
    let p = Pos { x: (k % w) as i32, y: (k / w) as i32 };
    assert(k == (k / w) * w + k % w && 0 <= k % w < w && 0 <= k / w < FIELD_H) by (nonlinear_arith)
        requires 0 <= k < w * FIELD_H, w == 20;
    assert(rank(p) == k);
    assert(in_grid(p));
    if p == head {
        assert(ranks[c.len() as int] == k);
        assert(ranks.contains(k));
    }
    if on_body(c, p) {
        let i = choose|i: int| 0 <= i < c.len() && c[i] == p;
        assert(all[i] == p);
        assert(ranks[i] == k);
        assert(ranks.contains(k));
    }
    assert(is_free(head, c, p));
}

/// Relies on rand's `Rng::gen_range` on a `ThreadRng`: a value drawn from `0..n`.
/// It panics on an empty range, hence `n > 0`.
#[verifier::external_body]
fn random_below(rng: &mut ThreadRng, n: usize) -> (r: usize)
    requires
        n > 0,
    ensures
        r < n,
{
    rng.gen_range(0..n)
}

/// Moves the food to a cell drawn uniformly among the free cells. Returns whether
/// there was a free cell; when there was none the food stays where it was.
pub fn relocate(apple: &mut Apple, head: Pos, body: &Vec<SnakeBody>, rng: &mut ThreadRng) -> (r: bool)
    ensures
        r == has_free(head, cells(body@)),
        r ==> is_free(head, cells(body@), final(apple).pos),
        !r ==> *final(apple) == *old(apple),
{
    let free = free_cells(head, body);
    if free.len() == 0 {
        assert(!has_free(head, cells(body@))) by {
            if has_free(head, cells(body@)) {
                let p = choose|p: Pos| is_free(head, cells(body@), p);
                assert(free@.contains(p));
            }
        }
        false
    } else {
        let k = random_below(rng, free.len());
        let p = free[k];
        assert(is_free(head, cells(body@), free@[k as int]));
        apple.respawn(p.x, p.y);
        true
    }
}

} // verus!
