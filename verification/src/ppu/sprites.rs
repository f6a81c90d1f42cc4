//! Sprites of a scanline and their order.
use vstd::prelude::*;

verus! {

/// An entry of the sprite table. Its coordinates are offset: the sprite's upper left
/// corner lies at `(x - 8, y - 16)`.
#[derive(Clone, Copy, Debug, PartialEq, Eq, Structural)]
pub struct Sprite {
    pub y: u8,
    pub x: u8,
    pub tile_number: u8,
    pub attr: u8,
}

impl Sprite {
    /// The sprite, `height` rows high, takes part in this scanline. Rows are counted
    /// modulo 256; a sprite that reaches over the upper edge is cut there.
    pub open spec fn on_line(self, line: u8, height: u8) -> bool {
        let top = self.y.wrapping_sub(16);
        let bottom = top.wrapping_add(height);
        if top < bottom {
            top <= line && line < bottom
        } else {
            line < bottom
        }
    }

    /// The sprite covers this column.
    pub open spec fn on_column(self, column: u8) -> bool {
        column < self.x && self.x <= column + 8
    }

    /// For lines of the screen, taking part is lying between the sprite's edges.
    pub proof fn law_on_line_of_screen(self, line: u8, height: u8)
        requires
            line < 240,
            height == 8 || height == 16,
        ensures
            self.on_line(line, height) == (self.y - 16 <= line < self.y - 16 + height),
    {
    }

    /// The sprite, `height` rows high, takes part in this scanline.
    pub fn visible_on(&self, line: u8, height: u8) -> (r: bool)
        ensures
            r == self.on_line(line, height),
    {
        let top: u8 = self.y.wrapping_sub(16);
        let bottom: u8 = top.wrapping_add(height);
        if top < bottom {
            top <= line && line < bottom
        } else {
            line < bottom
        }
    }

    /// The sprite covers this column.
    pub fn covers(&self, column: u8) -> (r: bool)
        ensures
            r == self.on_column(column),
    {
        let left: u8 = self.x.wrapping_sub(8);
        let right: u8 = self.x;
        if left < right {
            left <= column && column < right
        } else {
            column < right
        }
    }
}

/// The sprites are in order of their columns.
pub open spec fn ordered_by_x(s: Seq<Sprite>) -> bool {
    forall|i: int, j: int| 0 <= i <= j < s.len() ==> s[i].x <= s[j].x
}

/// `s` with `e` put behind the sprites that lie no further to the right.
pub open spec fn insert_by_x(s: Seq<Sprite>, e: Sprite) -> Seq<Sprite>
    decreases s.len(),
{
    if s.len() == 0 || s.last().x <= e.x {
        s.push(e)
    } else {
        insert_by_x(s.drop_last(), e).push(s.last())
    }
}

/// The sprites in order of their columns, those of one column in the order they had.
pub open spec fn sort_by_x(s: Seq<Sprite>) -> Seq<Sprite>
    decreases s.len(),
{
    if s.len() == 0 {
        s
    } else {
        insert_by_x(sort_by_x(s.drop_last()), s.last())
    }
}

/// The sprites of one column, in order.
pub open spec fn in_column(s: Seq<Sprite>, x: u8) -> Seq<Sprite>
    decreases s.len(),
{
    if s.len() == 0 {
        s
    } else if s.last().x == x {
        in_column(s.drop_last(), x).push(s.last())
    } else {
        in_column(s.drop_last(), x)
    }
}

proof fn lemma_insert_by_x(s: Seq<Sprite>, e: Sprite)
    requires
        ordered_by_x(s),
    ensures
        ordered_by_x(insert_by_x(s, e)),
        insert_by_x(s, e).to_multiset() == s.to_multiset().insert(e),
        insert_by_x(s, e).len() == s.len() + 1,
        forall|k: int|
            0 <= k <= s.len() ==> #[trigger] insert_by_x(s, e)[k].x <= e.x || (s.len() > 0
                && insert_by_x(s, e)[k].x <= s.last().x),
    decreases s.len(),
{
    broadcast use vstd::seq_lib::group_to_multiset_ensures;

    if s.len() == 0 || s.last().x <= e.x {
        s.to_multiset_ensures();
    } else {
        let rest = s.drop_last();
        lemma_insert_by_x(rest, e);
        let r = insert_by_x(rest, e);
        assert(s =~= rest.push(s.last()));
        assert(forall|k: int| 0 <= k < rest.len() ==> rest[k] == s[k]);
        assert forall|i: int, j: int| 0 <= i <= j < r.push(s.last()).len() implies r.push(
            s.last(),
        )[i].x <= r.push(s.last())[j].x by {
            if j == r.len() && i < r.len() {
                assert(r[i].x <= e.x || (rest.len() > 0 && r[i].x <= rest.last().x));
            }
        }
        assert(r.push(s.last()).to_multiset() == r.to_multiset().insert(s.last()));
        assert(s.to_multiset() == rest.to_multiset().insert(s.last()));
        assert(rest.to_multiset().insert(e).insert(s.last()) =~= rest.to_multiset().insert(
            s.last(),
        ).insert(e));
    }
}

proof fn lemma_insert_in_column(s: Seq<Sprite>, e: Sprite, x: u8)
    requires
        ordered_by_x(s),
    ensures
        in_column(insert_by_x(s, e), x) == if e.x == x {
            in_column(s, x).push(e)
        } else {
            in_column(s, x)
        },
    decreases s.len(),
{
    if s.len() == 0 || s.last().x <= e.x {
        assert(s.push(e).drop_last() =~= s);
    } else {
        let rest = s.drop_last();
        assert(forall|k: int| 0 <= k < rest.len() ==> rest[k] == s[k]);
        lemma_insert_in_column(rest, e, x);
        let r = insert_by_x(rest, e);
        assert(r.push(s.last()).drop_last() =~= r);
        if s.last().x == x {
            assert(e.x < x);
        }
    }
}

/// Sorting orders the sprites by column, loses and adds none, and keeps those of one
/// column in the order they had.
pub proof fn law_sort_by_x(s: Seq<Sprite>, x: u8)
    ensures
        ordered_by_x(sort_by_x(s)),
        sort_by_x(s).to_multiset() == s.to_multiset(),
        sort_by_x(s).len() == s.len(),
        in_column(sort_by_x(s), x) == in_column(s, x),
    decreases s.len(),
{
    broadcast use vstd::seq_lib::group_to_multiset_ensures;

    if s.len() > 0 {
        law_sort_by_x(s.drop_last(), x);
        lemma_insert_by_x(sort_by_x(s.drop_last()), s.last());
        lemma_insert_in_column(sort_by_x(s.drop_last()), s.last(), x);
        assert(s =~= s.drop_last().push(s.last()));
    }
}

proof fn lemma_insert_position(s: Seq<Sprite>, e: Sprite, at: int)
    requires
        0 <= at <= s.len(),
        at == 0 || s[at - 1].x <= e.x,
        forall|k: int| at <= k < s.len() ==> #[trigger] s[k].x > e.x,
    ensures
        insert_by_x(s, e) == s.insert(at, e),
    decreases s.len(),
{
    if at == s.len() {
        assert(s.insert(at, e) =~= s.push(e));
    } else {
        let rest = s.drop_last();
        assert(s[s.len() - 1].x > e.x);
        lemma_insert_position(rest, e, at);
        assert(s.insert(at, e) =~= rest.insert(at, e).push(s.last()));
    }
}

/// Sorts sprites by column; those of one column keep their order.
pub fn sort_sprites(sprites: &Vec<Sprite>) -> (r: Vec<Sprite>)
    ensures
        r@ == sort_by_x(sprites@),
{
    let mut out: Vec<Sprite> = Vec::new();
    let mut i: usize = 0;
    assert(sprites@.take(0) =~= Seq::<Sprite>::empty());
    while i < sprites.len()
        invariant
            i <= sprites@.len(),
            out@ == sort_by_x(sprites@.take(i as int)),
        decreases sprites@.len() - i,
    {
        let e = sprites[i];
        let mut at: usize = out.len();
        while at > 0 && out[at - 1].x > e.x
            invariant
                at <= out@.len(),
                forall|k: int| at <= k < out@.len() ==> #[trigger] out@[k].x > e.x,
            decreases at,
        {
            at = at - 1;
        }
        proof {
            lemma_insert_position(out@, e, at as int);
            assert(sprites@.take(i + 1).drop_last() =~= sprites@.take(i as int));
        }
        out.insert(at, e);
        i = i + 1;
    }
    assert(sprites@.take(i as int) =~= sprites@);
    out
}

} // verus!
