//! The spatial index: grids of cells, each cell holding the actors that
//! stand on it, in the order in which they arrived.

use crate::actor::Actor;
use crate::game::MoveInfo;
use crate::movement::{after_move, MovementComponent};
use crate::rendering::renderers::{DrawCallView, RenderingComponent};
use crate::rendering::windows::{Windows, WindowsView};
use crate::util::{Bound, Point};
use vstd::prelude::*;
use vstd::seq_lib::lemma_seq_concat_contains_all_elements;

verus! {

/// One layer of the world. `content[x][y]` holds the actors on column `x`,
/// row `y`; there is a cell for every column and row from `0` up to, but
/// not including, `size.max`.
#[derive(Debug, PartialEq, Eq)]
pub struct MapLayer {
    pub content: Vec<Vec<Vec<Actor>>>,
    pub size: Bound,
}

/// Number of columns (or rows) of a grid whose far edge is `max`.
pub open spec fn extent(max: i32) -> nat {
    if max > 0 {
        max as nat
    } else {
        0
    }
}

/// Whether `content` has a cell for each column and row that `size` asks
/// for.
pub open spec fn shaped(content: Seq<Vec<Vec<Actor>>>, size: Bound) -> bool {
    &&& content.len() == extent(size.max.x)
    &&& forall|x: int| 0 <= x < content.len() ==> (#[trigger] content[x])@.len() == extent(size.max.y)
}

// Cells

impl MapLayer {
    /// Every cell exists.
    pub open spec fn wf(&self) -> bool {
        shaped(self.content@, self.size)
    }

    /// Whether the grid has a cell for `point`.
    pub open spec fn covers(&self, point: Point) -> bool {
        0 <= point.x < self.size.max.x && 0 <= point.y < self.size.max.y
    }

    /// The actors on column `x`, row `y`, first arrival first.
    pub open spec fn cell_at(&self, x: int, y: int) -> Seq<Actor> {
        self.content@[x]@[y]@
    }

    /// The actors on `point`, first arrival first.
    pub open spec fn cell(&self, point: Point) -> Seq<Actor> {
        self.cell_at(point.x as int, point.y as int)
    }

    /// No actor stands anywhere.
    pub open spec fn is_empty(&self) -> bool {
        forall|point: Point| self.covers(point) ==> (#[trigger] self.cell(point)).len() == 0
    }

    /// Every actor stands on the cell of its own position.
    pub open spec fn settled(&self) -> bool {
        forall|point: Point, i: int|
            self.covers(point) && 0 <= i < self.cell(point).len() ==> (
            #[trigger] self.cell(point)[i]).position == point
    }

    /// Every actor's position has a cell.
    pub open spec fn grounded(&self) -> bool {
        forall|point: Point, i: int|
            self.covers(point) && 0 <= i < self.cell(point).len() ==> self.covers(
                (#[trigger] self.cell(point)[i]).position,
            )
    }

    /// An empty grid with a cell for each column and row below `size.max`.
    pub fn new(size: Bound) -> (map: MapLayer)
        ensures
            map.wf(),
            map.size == size,
            map.is_empty(),
    {
        let content = MapLayer::init_contents(size);
        MapLayer { content: content, size: size }
    }

    fn init_contents(size: Bound) -> (contents: Vec<Vec<Vec<Actor>>>)
        ensures
            shaped(contents@, size),
            forall|x: int, y: int|
                0 <= x < extent(size.max.x) && 0 <= y < extent(size.max.y) ==> (
                #[trigger] contents@[x]@[y])@.len() == 0,
    {
        let mut contents: Vec<Vec<Vec<Actor>>> = Vec::new();
        let mut x: i32 = 0;
        while x < size.max.x
            invariant
                0 <= x <= extent(size.max.x),
                contents@.len() == x,
                forall|cx: int|
                    0 <= cx < x ==> (#[trigger] contents@[cx])@.len() == extent(size.max.y),
                forall|cx: int, cy: int|
                    0 <= cx < x && 0 <= cy < extent(size.max.y) ==> (
                    #[trigger] contents@[cx]@[cy])@.len() == 0,
            decreases size.max.x - x,
        {
            let mut x_vec: Vec<Vec<Actor>> = Vec::new();
            let mut y: i32 = 0;
            while y < size.max.y
                invariant
                    0 <= y <= extent(size.max.y),
                    x_vec@.len() == y,
                    forall|cy: int| 0 <= cy < y ==> (#[trigger] x_vec@[cy])@.len() == 0,
                decreases size.max.y - y,
            {
                let y_vec: Vec<Actor> = Vec::new();
                x_vec.push(y_vec);
                y = y + 1;
            }
            contents.push(x_vec);
            x = x + 1;
        }
        contents
    }

    /// Whether every cell exists.
    pub fn is_wf(&self) -> (shaped: bool)
        ensures
            shaped == self.wf(),
    {
        let columns: usize = if self.size.max.x > 0 {
            self.size.max.x as usize
        } else {
            0
        };
        let rows: usize = if self.size.max.y > 0 {
            self.size.max.y as usize
        } else {
            0
        };
        if self.content.len() != columns {
            return false;
        }
        let mut x: usize = 0;
        while x < columns
            invariant
                x <= columns,
                columns == extent(self.size.max.x),
                rows == extent(self.size.max.y),
                self.content@.len() == columns,
                forall|cx: int| 0 <= cx < x ==> (#[trigger] self.content@[cx])@.len() == rows,
            decreases columns - x,
        {
            if self.content[x].len() != rows {
                return false;
            }
            x = x + 1;
        }
        true
    }

    /// Whether the grid has a cell for `point`.
    pub fn has_cell(&self, point: Point) -> (covered: bool)
        ensures
            covered == self.covers(point),
    {
        0 <= point.x && point.x < self.size.max.x && 0 <= point.y && point.y < self.size.max.y
    }

    /// Puts `actor` on the cell at `point`, behind those already there.
    pub fn push_actor(&mut self, point: Point, actor: Actor)
        requires
            old(self).wf(),
            old(self).covers(point),
        ensures
            final(self).wf(),
            final(self).size == old(self).size,
            final(self).cell(point) == old(self).cell(point).push(actor),
            forall|other: Point|
                old(self).covers(other) && other != point ==> #[trigger] final(self).cell(other)
                    == old(self).cell(other),
            old(self).grounded() && old(self).covers(actor.position) ==> final(self).grounded(),
            old(self).settled() && actor.position == point ==> final(self).settled(),
    {
        self.content[point.x as usize][point.y as usize].push(actor);
        proof {
            assert forall|other: Point, i: int|
                self.covers(other) && 0 <= i < self.cell(other).len() implies (
            #[trigger] self.cell(other)[i]) == if other == point && i == old(self).cell(
                point,
            ).len() {
                actor
            } else {
                old(self).cell(other)[i]
            } by {}
        }
    }

    /// The first actor on `point`, if any stands there.
    pub fn actor_at(&self, point: Point) -> (found: Option<&Actor>)
        requires
            self.wf(),
            self.covers(point),
        ensures
            found == if self.cell(point).len() > 0 {
                Some(&self.cell(point)[0])
            } else {
                None
            },
    {
        let actors_at_point = &self.content[point.x as usize][point.y as usize];
        if actors_at_point.len() > 0 {
            Some(&actors_at_point[0])
        } else {
            None
        }
    }
}

// The walk over the grid

impl MapLayer {
    /// The actors on column `x`, row `y`, each with the cell's point.
    pub open spec fn cell_entries(&self, x: int, y: int) -> Seq<(Point, Actor)> {
        self.cell_at(x, y).map_values(|actor: Actor| (Point { x: x as i32, y: y as i32 }, actor))
    }

    /// The actors on the first `rows` rows of column `x`, top row first.
    pub open spec fn rows_entries(&self, x: int, rows: nat) -> Seq<(Point, Actor)>
        decreases rows,
    {
        if rows == 0 {
            Seq::empty()
        } else {
            self.rows_entries(x, (rows - 1) as nat) + self.cell_entries(x, rows - 1)
        }
    }

    /// The actors on the first `columns` columns, leftmost column first.
    pub open spec fn columns_entries(&self, columns: nat) -> Seq<(Point, Actor)>
        decreases columns,
    {
        if columns == 0 {
            Seq::empty()
        } else {
            self.columns_entries((columns - 1) as nat) + self.rows_entries(
                columns - 1,
                extent(self.size.max.y),
            )
        }
    }

    /// Every actor with the point of its cell, in the order in which the
    /// grid is walked: column by column, each column from the top, each
    /// cell from its first arrival.
    pub open spec fn entries(&self) -> Seq<(Point, Actor)> {
        self.columns_entries(extent(self.size.max.x))
    }

    /// Every actor, in the order in which the grid is walked.
    pub open spec fn occupants(&self) -> Seq<Actor> {
        self.entries().map_values(|entry: (Point, Actor)| entry.1)
    }

    /// An actor is listed for the first `rows` rows of column `x` exactly
    /// when it stands on one of those cells.
    pub proof fn lemma_rows_entries_contain(&self, x: int, rows: nat, point: Point, actor: Actor)
        requires
            0 <= x <= i32::MAX,
            rows <= i32::MAX,
        ensures
            self.rows_entries(x, rows).contains((point, actor)) <==> point.x == x && 0 <= point.y
                < rows && self.cell(point).contains(actor),
        decreases rows,
    {
        if rows > 0 {
            let above = self.rows_entries(x, (rows - 1) as nat);
            let last = self.cell_entries(x, rows - 1);
            let here = Point { x: x as i32, y: (rows - 1) as i32 };
            self.lemma_rows_entries_contain(x, (rows - 1) as nat, point, actor);
            lemma_seq_concat_contains_all_elements(above, last, (point, actor));
            if point == here && self.cell(point).contains(actor) {
                let i = choose|i: int|
                    0 <= i < self.cell(point).len() && self.cell(point)[i] == actor;
                assert(last[i] == (point, actor));
            }
        }
    }

    /// An actor is listed for the first `columns` columns exactly when it
    /// stands on a cell of one of them.
    pub proof fn lemma_columns_entries_contain(&self, columns: nat, point: Point, actor: Actor)
        requires
            columns <= i32::MAX,
        ensures
            self.columns_entries(columns).contains((point, actor)) <==> 0 <= point.x < columns
                && 0 <= point.y < extent(self.size.max.y) && self.cell(point).contains(actor),
        decreases columns,
    {
        if columns > 0 {
            let left = self.columns_entries((columns - 1) as nat);
            let last = self.rows_entries(columns - 1, extent(self.size.max.y));
            self.lemma_columns_entries_contain((columns - 1) as nat, point, actor);
            self.lemma_rows_entries_contain(columns - 1, extent(self.size.max.y), point, actor);
            lemma_seq_concat_contains_all_elements(left, last, (point, actor));
        }
    }

    /// The walk lists an actor with a point exactly when the grid has a
    /// cell for the point and the actor stands on it.
    pub proof fn lemma_entries_contain(&self, point: Point, actor: Actor)
        ensures
            self.entries().contains((point, actor)) <==> self.covers(point) && self.cell(
                point,
            ).contains(actor),
    {
        self.lemma_columns_entries_contain(extent(self.size.max.x), point, actor);
    }

    /// Where every actor's position has a cell, so has that of every actor
    /// that the walk lists.
    pub proof fn lemma_entries_grounded(&self)
        requires
            self.grounded(),
        ensures
            forall|k: int|
                0 <= k < self.entries().len() ==> self.covers(
                    (#[trigger] self.entries()[k]).1.position,
                ),
    {
        assert forall|k: int| 0 <= k < self.entries().len() implies self.covers(
            (#[trigger] self.entries()[k]).1.position,
        ) by {
            let (point, actor) = self.entries()[k];
            self.lemma_entries_contain(point, actor);
            let i = choose|i: int| 0 <= i < self.cell(point).len() && self.cell(point)[i] == actor;
        }
    }

    /// Every actor with the point of its cell, in the order in which the
    /// grid is walked.
    pub fn list_entries(&self) -> (entries: Vec<(Point, Actor)>)
        requires
            self.wf(),
        ensures
            entries@ == self.entries(),
    {
        let mut entries: Vec<(Point, Actor)> = Vec::new();
        let columns = self.content.len();
        let mut x: usize = 0;
        while x < columns
            invariant
                self.wf(),
                columns == extent(self.size.max.x),
                x <= columns,
                entries@ == self.columns_entries(x as nat),
            decreases columns - x,
        {
            let column = &self.content[x];
            let rows = column.len();
            let ghost left = entries@;
            let mut y: usize = 0;
            while y < rows
                invariant
                    self.wf(),
                    x < columns,
                    columns == extent(self.size.max.x),
                    rows == extent(self.size.max.y),
                    column == self.content@[x as int],
                    y <= rows,
                    entries@ == left + self.rows_entries(x as int, y as nat),
                decreases rows - y,
            {
                let cell = &column[y];
                let ghost above = entries@;
                let mut i: usize = 0;
                while i < cell.len()
                    invariant
                        x < columns,
                        columns == extent(self.size.max.x),
                        y < rows,
                        rows == extent(self.size.max.y),
                        cell@ == self.cell_at(x as int, y as int),
                        i <= cell.len(),
                        entries@ == above + self.cell_entries(x as int, y as int).take(i as int),
                    decreases cell.len() - i,
                {
                    let point = Point { x: x as i32, y: y as i32 };
                    entries.push((point, cell[i].clone()));
                    i = i + 1;
                }
                y = y + 1;
            }
            x = x + 1;
        }
        entries
    }

    /// The calls that draw the layer: one glyph for each actor, on the
    /// point of its cell, in the order in which the grid is walked.
    pub open spec fn draw_calls(&self) -> Seq<DrawCallView> {
        self.entries().map_values(|entry: (Point, Actor)| entry.1.at(entry.0).glyph())
    }

    /// Draws every actor of the layer.
    pub fn render<R: RenderingComponent>(&self, renderer: &mut R)
        requires
            self.wf(),
        ensures
            final(renderer).calls() == old(renderer).calls() + self.draw_calls(),
    {
        let entries = self.list_entries();
        let mut k: usize = 0;
        while k < entries.len()
            invariant
                k <= entries.len(),
                entries@ == self.entries(),
                renderer.calls() == old(renderer).calls() + self.draw_calls().take(k as int),
            decreases entries.len() - k,
        {
            let (point, actor) = entries[k];
            renderer.render_object(point, actor.display_char, actor.foreground, actor.background);
            k = k + 1;
        }
    }
}

// One tick

/// What a tick hands from one actor's turn to the next: the turn context
/// and the windows.
pub struct TurnState {
    pub info: MoveInfo,
    pub windows: WindowsView,
}

/// The state after `actor` has taken its turn and become `after`: the
/// player's character leaves its new position in the turn context, and a
/// refused move leaves its message.
pub open spec fn after_turn(state: TurnState, actor: Actor, after: Actor) -> TurnState {
    TurnState {
        info: if after.is_pc {
            MoveInfo { char_location: after.position, ..state.info }
        } else {
            state.info
        },
        windows: after_move(state.windows, actor.refuses(state.info)),
    }
}

/// The state after the actors `before` have taken their turns in order and
/// become `moved`.
pub open spec fn after_turns(start: TurnState, before: Seq<Actor>, moved: Seq<Actor>) -> TurnState
    decreases before.len(),
{
    if before.len() == 0 {
        start
    } else {
        after_turn(
            after_turns(start, before.drop_last(), moved.drop_last()),
            before.last(),
            moved.last(),
        )
    }
}

/// Whether the actors `before`, taking their turns in order, may become
/// `moved`: each moves as its strategy allows in the state that the turns
/// before it have left.
pub open spec fn turns_allowed(start: TurnState, before: Seq<Actor>, moved: Seq<Actor>) -> bool
    decreases before.len(),
{
    &&& moved.len() == before.len()
    &&& before.len() > 0 ==> {
        &&& turns_allowed(start, before.drop_last(), moved.drop_last())
        &&& before.last().may_become(
            after_turns(start, before.drop_last(), moved.drop_last()).info,
            moved.last(),
        )
    }
}

/// Those of `actors` that stand on `point`, in the order of `actors`.
pub open spec fn standing_on(actors: Seq<Actor>, point: Point) -> Seq<Actor> {
    actors.filter(|actor: Actor| actor.position == point)
}

/// One more actor joins those standing on its own point and no others.
pub proof fn lemma_standing_on_push(actors: Seq<Actor>, actor: Actor, point: Point)
    ensures
        standing_on(actors.push(actor), point) == if actor.position == point {
            standing_on(actors, point).push(actor)
        } else {
            standing_on(actors, point)
        },
{
    reveal(Seq::filter);
    assert(actors.push(actor).drop_last() =~= actors);
}

/// Turns change neither the bounds nor the last key of the turn context.
pub proof fn lemma_turns_keep_context(start: TurnState, before: Seq<Actor>, moved: Seq<Actor>)
    ensures
        after_turns(start, before, moved).info.bounds == start.info.bounds,
        after_turns(start, before, moved).info.last_keypress == start.info.last_keypress,
    decreases before.len(),
{
    if before.len() > 0 {
        lemma_turns_keep_context(start, before.drop_last(), moved.drop_last());
    }
}

/// Where every turn is allowed, the turn at `i` is: the actor there moves
/// as its strategy allows in the state that the turns before it have left.
pub proof fn lemma_turn_allowed(start: TurnState, before: Seq<Actor>, moved: Seq<Actor>, i: int)
    requires
        turns_allowed(start, before, moved),
        0 <= i < before.len(),
    ensures
        before[i].may_become(after_turns(start, before.take(i), moved.take(i)).info, moved[i]),
    decreases before.len(),
{
    if i < before.len() - 1 {
        lemma_turn_allowed(start, before.drop_last(), moved.drop_last(), i);
        assert(before.drop_last().take(i) =~= before.take(i));
        assert(moved.drop_last().take(i) =~= moved.take(i));
    }
}

impl MapLayer {
    /// Whether the cells hold exactly `actors`: each on the cell of its
    /// position, each cell in the order of `actors`.
    pub open spec fn holds_exactly(&self, actors: Seq<Actor>) -> bool {
        &&& forall|i: int| 0 <= i < actors.len() ==> self.covers((#[trigger] actors[i]).position)
        &&& forall|point: Point|
            self.covers(point) ==> #[trigger] self.cell(point) == standing_on(actors, point)
    }

    /// Every point within `bounds` has a cell.
    pub open spec fn fits(&self, bounds: Bound) -> bool {
        forall|point: Point| #[trigger] bounds.spec_contains(point) ==> self.covers(point)
    }

    /// Whether a tick can run: every cell exists, every actor's position
    /// has a cell, and so has every point within `bounds`.
    pub open spec fn ready(&self, bounds: Bound) -> bool {
        self.wf() && self.grounded() && self.fits(bounds)
    }

    fn is_fit_for(&self, bounds: &Bound) -> (fits: bool)
        ensures
            fits == self.fits(*bounds),
    {
        let fits = bounds.min.x >= bounds.max.x || bounds.min.y >= bounds.max.y || (0
            <= bounds.min.x && bounds.max.x <= self.size.max.x && 0 <= bounds.min.y
            && bounds.max.y <= self.size.max.y);
        proof {
            if !fits {
                let first = bounds.min;
                let last = Point { x: (bounds.max.x - 1) as i32, y: (bounds.max.y - 1) as i32 };
                assert(bounds.spec_contains(first));
                assert(bounds.spec_contains(last));
            }
        }
        fits
    }

    /// Whether a tick can run on this layer within `bounds`.
    pub fn is_ready(&self, bounds: &Bound) -> (ready: bool)
        ensures
            ready == self.ready(*bounds),
    {
        if !self.is_wf() || !self.is_fit_for(bounds) {
            return false;
        }
        let entries = self.list_entries();
        let mut k: usize = 0;
        while k < entries.len()
            invariant
                k <= entries.len(),
                entries@ == self.entries(),
                forall|j: int| 0 <= j < k ==> self.covers((#[trigger] entries@[j]).1.position),
            decreases entries.len() - k,
        {
            if !self.has_cell(entries[k].1.position) {
                proof {
                    if self.grounded() {
                        self.lemma_entries_grounded();
                    }
                }
                return false;
            }
            k = k + 1;
        }
        proof {
            assert forall|point: Point, i: int|
                self.covers(point) && 0 <= i < self.cell(point).len() implies self.covers(
                (#[trigger] self.cell(point)[i]).position,
            ) by {
                self.lemma_entries_contain(point, self.cell(point)[i]);
            }
        }
        true
    }

    /// Whether one tick may turn the layer `before` into `after` and the
    /// state `start` into `end`: the actors take their turns in the order in
    /// which the grid is walked, and the new grid holds them on the cells
    /// of their new positions, in that order.
    pub open spec fn ticked(
        before: MapLayer,
        start: TurnState,
        after: MapLayer,
        end: TurnState,
    ) -> bool {
        &&& after.wf()
        &&& after.size == before.size
        &&& exists|moved: Seq<Actor>|
            {
                &&& #[trigger] turns_allowed(start, before.occupants(), moved)
                &&& end == after_turns(start, before.occupants(), moved)
                &&& after.holds_exactly(moved)
            }
    }

    /// Lets every actor take its turn, in the order in which the grid is
    /// walked, and rebuilds the grid from where the actors stand then.
    pub fn update(&mut self, info: &mut MoveInfo, windows: &mut Windows)
        requires
            old(self).ready(old(info).bounds),
        ensures
            MapLayer::ticked(
                *old(self),
                TurnState { info: *old(info), windows: old(windows)@ },
                *final(self),
                TurnState { info: *final(info), windows: final(windows)@ },
            ),
            final(self).ready(final(info).bounds),
            final(self).settled(),
            final(info).bounds == old(info).bounds,
            final(info).last_keypress == old(info).last_keypress,
    {
        let entries = self.list_entries();
        let mut new_content = MapLayer::init_contents(self.size);
        let ghost start = TurnState { info: *info, windows: windows@ };
        let ghost before = self.occupants();
        let ghost mut moved: Seq<Actor> = Seq::empty();
        proof {
            self.lemma_entries_grounded();
            assert forall|point: Point| self.covers(point) implies (
            #[trigger] new_content@[point.x as int]@[point.y as int])@ == standing_on(
                moved,
                point,
            ) by {
                reveal(Seq::filter);
            }
        }
        let mut k: usize = 0;
        while k < entries.len()
            invariant
                k <= entries.len(),
                *self == *old(self),
                self.wf(),
                self.fits(start.info.bounds),
                entries@ == self.entries(),
                before == self.occupants(),
                forall|j: int|
                    0 <= j < entries@.len() ==> self.covers((#[trigger] entries@[j]).1.position),
                moved.len() == k,
                turns_allowed(start, before.take(k as int), moved),
                (TurnState { info: *info, windows: windows@ }) == after_turns(
                    start,
                    before.take(k as int),
                    moved,
                ),
                info.bounds == start.info.bounds,
                info.last_keypress == start.info.last_keypress,
                shaped(new_content@, self.size),
                forall|i: int| 0 <= i < moved.len() ==> self.covers((#[trigger] moved[i]).position),
                forall|point: Point|
                    self.covers(point) ==> (
                    #[trigger] new_content@[point.x as int]@[point.y as int])@ == standing_on(
                        moved,
                        point,
                    ),
            decreases entries.len() - k,
        {
            let mut actor = entries[k].1;
            actor.update(info, windows);
            if actor.is_pc {
                info.char_location = actor.position;
            }
            let point = actor.position;
            let new_actor = actor.clone();
            new_content[point.x as usize][point.y as usize].push(new_actor);
            proof {
                let grown = moved.push(actor);
                assert(before.take(k + 1).drop_last() =~= before.take(k as int));
                assert(grown.drop_last() =~= moved);
                assert forall|other: Point| self.covers(other) implies (
                #[trigger] new_content@[other.x as int]@[other.y as int])@ == standing_on(
                    grown,
                    other,
                ) by {
                    lemma_standing_on_push(moved, actor, other);
                }
                moved = grown;
            }
            k = k + 1;
        }
        proof {
            assert(before.take(k as int) =~= before);
        }
        self.content = new_content;
        proof {
            assert forall|point: Point, i: int|
                final(self).covers(point) && 0 <= i < final(self).cell(point).len() implies (
            #[trigger] final(self).cell(point)[i]).position == point by {
                moved.lemma_filter_pred(|actor: Actor| actor.position == point, i);
            }
        }
    }
}

/// An actor that its strategy keeps in place is found on its cell again
/// after a tick: where `actor`, standing on `point`, was put on the cell at
/// `point`, and its strategy allows no other position than `point`
/// wherever the player's character stands, the cell at `point` holds the
/// actor after the tick.
pub proof fn lemma_still_actor_stays(
    layer: MapLayer,
    point: Point,
    actor: Actor,
    pushed: MapLayer,
    start: TurnState,
    after: MapLayer,
    end: TurnState,
)
    requires
        layer.covers(point),
        actor.position == point,
        pushed.size == layer.size,
        pushed.cell(point) == layer.cell(point).push(actor),
        MapLayer::ticked(pushed, start, after, end),
        forall|location: Point, next: Point| #[trigger]
            actor.movement_component.may_move(
                point,
                MoveInfo { char_location: location, ..start.info },
                next,
            ) ==> next == point,
    ensures
        after.cell(point).contains(actor),
{
    let before = pushed.occupants();
    let moved = choose|moved: Seq<Actor>|
        {
            &&& #[trigger] turns_allowed(start, before, moved)
            &&& end == after_turns(start, before, moved)
            &&& after.holds_exactly(moved)
        };
    assert(pushed.cell(point).last() == actor);
    pushed.lemma_entries_contain(point, actor);
    let k = choose|k: int| 0 <= k < pushed.entries().len() && pushed.entries()[k] == (point, actor);
    lemma_turn_allowed(start, before, moved, k);
    let state = after_turns(start, before.take(k), moved.take(k));
    lemma_turns_keep_context(start, before.take(k), moved.take(k));
    assert(state.info == (MoveInfo { char_location: state.info.char_location, ..start.info }));
    moved.lemma_filter_contains_rev(|other: Actor| other.position == point, actor);
}

/// Those of `actors` that stand on one of the first `rows` rows of column
/// `x`.
pub open spec fn standing_in_rows(actors: Seq<Actor>, x: int, rows: nat) -> Seq<Actor> {
    actors.filter(|actor: Actor| actor.position.x == x && 0 <= actor.position.y < rows)
}

/// Those of `actors` that stand on one of the first `columns` columns of a
/// grid with `rows` rows.
pub open spec fn standing_in_columns(actors: Seq<Actor>, columns: nat, rows: nat) -> Seq<Actor> {
    actors.filter(|actor: Actor| 0 <= actor.position.x < columns && 0 <= actor.position.y < rows)
}

/// Where `both` holds of exactly those values of which one of `one` and
/// `other` holds, and these two never hold together, as many of `s` meet
/// `both` as meet `one` and `other` taken together.
proof fn lemma_filter_splits<A>(
    s: Seq<A>,
    both: spec_fn(A) -> bool,
    one: spec_fn(A) -> bool,
    other: spec_fn(A) -> bool,
)
    requires
        forall|a: A| #[trigger] both(a) <==> one(a) || other(a),
        forall|a: A| !(#[trigger] one(a) && other(a)),
    ensures
        s.filter(both).len() == s.filter(one).len() + s.filter(other).len(),
    decreases s.len(),
{
    reveal(Seq::filter);
    if s.len() > 0 {
        lemma_filter_splits(s.drop_last(), both, one, other);
    }
}

/// What meets a condition throughout is left whole by filtering on it.
proof fn lemma_filter_keeps_all<A>(s: Seq<A>, pred: spec_fn(A) -> bool)
    requires
        forall|i: int| 0 <= i < s.len() ==> pred(#[trigger] s[i]),
    ensures
        s.filter(pred) == s,
    decreases s.len(),
{
    reveal(Seq::filter);
    if s.len() > 0 {
        lemma_filter_keeps_all(s.drop_last(), pred);
        assert(s.drop_last().push(s.last()) =~= s);
    }
}

/// Where nothing meets a condition, filtering on it leaves nothing.
proof fn lemma_filter_drops_all<A>(s: Seq<A>, pred: spec_fn(A) -> bool)
    requires
        forall|i: int| 0 <= i < s.len() ==> !pred(#[trigger] s[i]),
    ensures
        s.filter(pred).len() == 0,
    decreases s.len(),
{
    reveal(Seq::filter);
    if s.len() > 0 {
        lemma_filter_drops_all(s.drop_last(), pred);
    }
}

impl MapLayer {
    /// In a grid that holds exactly `actors`, the walk over the first
    /// `rows` rows of a column lists as many actors as stand there.
    proof fn lemma_rows_hold_their_actors(&self, actors: Seq<Actor>, x: int, rows: nat)
        requires
            self.holds_exactly(actors),
            0 <= x < extent(self.size.max.x),
            rows <= extent(self.size.max.y),
        ensures
            self.rows_entries(x, rows).len() == standing_in_rows(actors, x, rows).len(),
        decreases rows,
    {
        if rows > 0 {
            let here = Point { x: x as i32, y: (rows - 1) as i32 };
            self.lemma_rows_hold_their_actors(actors, x, (rows - 1) as nat);
            assert(self.cell(here) == standing_on(actors, here));
            lemma_filter_splits(
                actors,
                |actor: Actor| actor.position.x == x && 0 <= actor.position.y < rows,
                |actor: Actor| actor.position.x == x && 0 <= actor.position.y < (rows - 1) as nat,
                |actor: Actor| actor.position == here,
            );
        } else {
            lemma_filter_drops_all(
                actors,
                |actor: Actor| actor.position.x == x && 0 <= actor.position.y < rows,
            );
        }
    }

    /// In a grid that holds exactly `actors`, the walk over the first
    /// `columns` columns lists as many actors as stand there.
    proof fn lemma_columns_hold_their_actors(&self, actors: Seq<Actor>, columns: nat)
        requires
            self.holds_exactly(actors),
            columns <= extent(self.size.max.x),
        ensures
            self.columns_entries(columns).len() == standing_in_columns(
                actors,
                columns,
                extent(self.size.max.y),
            ).len(),
        decreases columns,
    {
        let rows = extent(self.size.max.y);
        if columns > 0 {
            self.lemma_columns_hold_their_actors(actors, (columns - 1) as nat);
            self.lemma_rows_hold_their_actors(actors, columns - 1, rows);
            lemma_filter_splits(
                actors,
                |actor: Actor| 0 <= actor.position.x < columns && 0 <= actor.position.y < rows,
                |actor: Actor|
                    0 <= actor.position.x < (columns - 1) as nat && 0 <= actor.position.y < rows,
                |actor: Actor| actor.position.x == columns - 1 && 0 <= actor.position.y < rows,
            );
        } else {
            lemma_filter_drops_all(
                actors,
                |actor: Actor| 0 <= actor.position.x < columns && 0 <= actor.position.y < rows,
            );
        }
    }
}

/// A tick neither loses an actor nor makes one twice: the layer holds as
/// many actors after it as before.
pub proof fn lemma_tick_keeps_every_actor(
    before: MapLayer,
    start: TurnState,
    after: MapLayer,
    end: TurnState,
)
    requires
        MapLayer::ticked(before, start, after, end),
    ensures
        after.occupants().len() == before.occupants().len(),
{
    let moved = choose|moved: Seq<Actor>|
        {
            &&& #[trigger] turns_allowed(start, before.occupants(), moved)
            &&& end == after_turns(start, before.occupants(), moved)
            &&& after.holds_exactly(moved)
        };
    let columns = extent(after.size.max.x);
    let rows = extent(after.size.max.y);
    after.lemma_columns_hold_their_actors(moved, columns);
    lemma_filter_keeps_all(
        moved,
        |actor: Actor| 0 <= actor.position.x < columns && 0 <= actor.position.y < rows,
    );
}

/// Who comes first to a cell is found first: after two actors were put on
/// an empty cell, the first of them heads the cell.
pub proof fn lemma_first_arrival_heads_cell(
    layer: MapLayer,
    point: Point,
    first: Actor,
    second: Actor,
    once: MapLayer,
    twice: MapLayer,
)
    requires
        layer.cell(point).len() == 0,
        once.cell(point) == layer.cell(point).push(first),
        twice.cell(point) == once.cell(point).push(second),
    ensures
        twice.cell(point).len() == 2,
        twice.cell(point)[0] == first,
{
}

// The layers

/// The layers of the world.
#[derive(Debug, PartialEq, Eq)]
pub struct Maps {
    pub terrain: MapLayer,
    pub enemies: MapLayer,
    pub friends: MapLayer,
    pub pcs: MapLayer,
}

impl Maps {
    /// Four empty layers of the same size.
    pub fn new(size: Bound) -> (maps: Maps)
        ensures
            maps.wf(),
            maps.terrain.size == size && maps.terrain.is_empty(),
            maps.enemies.size == size && maps.enemies.is_empty(),
            maps.friends.size == size && maps.friends.is_empty(),
            maps.pcs.size == size && maps.pcs.is_empty(),
    {
        let terrain = MapLayer::new(size);
        let enemies = MapLayer::new(size);
        let friends = MapLayer::new(size);
        let pcs = MapLayer::new(size);

        Maps { friends: friends, enemies: enemies, terrain: terrain, pcs: pcs }
    }

    /// Every cell of every layer exists.
    pub open spec fn wf(&self) -> bool {
        self.terrain.wf() && self.enemies.wf() && self.friends.wf() && self.pcs.wf()
    }

    /// Whether a tick can run on every layer.
    pub open spec fn ready(&self, bounds: Bound) -> bool {
        &&& self.terrain.ready(bounds)
        &&& self.enemies.ready(bounds)
        &&& self.friends.ready(bounds)
        &&& self.pcs.ready(bounds)
    }

    /// Whether every cell of every layer exists.
    pub fn is_wf(&self) -> (shaped: bool)
        ensures
            shaped == self.wf(),
    {
        self.terrain.is_wf() && self.enemies.is_wf() && self.friends.is_wf() && self.pcs.is_wf()
    }

    /// Whether a tick can run on every layer within `bounds`.
    pub fn is_ready(&self, bounds: &Bound) -> (ready: bool)
        ensures
            ready == self.ready(*bounds),
    {
        self.terrain.is_ready(bounds) && self.enemies.is_ready(bounds) && self.friends.is_ready(
            bounds,
        ) && self.pcs.is_ready(bounds)
    }

    /// Whether one tick may turn the layers `before` into `after` and the
    /// state `start` into `end`. The layers take their turns one after the
    /// other: the player's characters first, so that whoever chases them
    /// in the same tick knows where they went, then terrain, friends and
    /// enemies.
    pub open spec fn ticked(before: Maps, start: TurnState, after: Maps, end: TurnState) -> bool {
        exists|first: TurnState, second: TurnState, third: TurnState|
            {
                &&& #[trigger] MapLayer::ticked(before.pcs, start, after.pcs, first)
                &&& #[trigger] MapLayer::ticked(before.terrain, first, after.terrain, second)
                &&& #[trigger] MapLayer::ticked(before.friends, second, after.friends, third)
                &&& MapLayer::ticked(before.enemies, third, after.enemies, end)
            }
    }

    /// Lets every actor of every layer take its turn.
    pub fn update(&mut self, info: &mut MoveInfo, windows: &mut Windows)
        requires
            old(self).ready(old(info).bounds),
        ensures
            Maps::ticked(
                *old(self),
                TurnState { info: *old(info), windows: old(windows)@ },
                *final(self),
                TurnState { info: *final(info), windows: final(windows)@ },
            ),
            final(self).ready(final(info).bounds),
            final(info).bounds == old(info).bounds,
            final(info).last_keypress == old(info).last_keypress,
    {
        let ghost start = TurnState { info: *info, windows: windows@ };
        self.pcs.update(info, windows);
        let ghost first = TurnState { info: *info, windows: windows@ };
        self.terrain.update(info, windows);
        let ghost second = TurnState { info: *info, windows: windows@ };
        self.friends.update(info, windows);
        let ghost third = TurnState { info: *info, windows: windows@ };
        self.enemies.update(info, windows);
        proof {
            assert(MapLayer::ticked(old(self).pcs, start, self.pcs, first));
            assert(MapLayer::ticked(old(self).terrain, first, self.terrain, second));
            assert(MapLayer::ticked(old(self).friends, second, self.friends, third));
        }
    }

    /// The calls that draw the layers, the lowest layer first.
    pub open spec fn draw_calls(&self) -> Seq<DrawCallView> {
        self.terrain.draw_calls() + self.friends.draw_calls() + self.enemies.draw_calls()
            + self.pcs.draw_calls()
    }

    /// Draws every layer: terrain, then friends, then enemies, and the
    /// player's characters on top.
    pub fn render<R: RenderingComponent>(&self, renderer: &mut R)
        requires
            self.wf(),
        ensures
            final(renderer).calls() == old(renderer).calls() + self.draw_calls(),
    {
        self.terrain.render(renderer);
        self.friends.render(renderer);
        self.enemies.render(renderer);
        self.pcs.render(renderer);
    }

    /// The enemy that came first to `point`, if any stands there.
    pub fn enemy_at(&self, point: Point) -> (found: Option<&Actor>)
        requires
            self.enemies.wf(),
            self.enemies.covers(point),
        ensures
            found == if self.enemies.cell(point).len() > 0 {
                Some(&self.enemies.cell(point)[0])
            } else {
                None
            },
    {
        let enemies_at_point = &self.enemies.content[point.x as usize][point.y as usize];
        if enemies_at_point.len() > 0 {
            Some(&enemies_at_point[0])
        } else {
            None
        }
    }
}

} // verus!
