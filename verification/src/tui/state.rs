use crate::error::ModError;
use crate::gamebanana::builder::{
    FeedFilter, SearchBuilder, SearchBuilderView, SearchFilter, SearchFilterView, TypeFilter,
    GAME_ID,
};
use crate::gamebanana::models::category::GBModCategory;
use crate::gamebanana::models::file::GBFile;
use crate::gamebanana::models::modpage::GBModPage;
use crate::gamebanana::models::search_result::GBSearchEntry;
use crate::gamebanana::search::{catalog_root, page_suffix};
use crate::modz::Mod;
use vstd::prelude::*;
use vstd::std_specs::cmp::PartialEqSpec;

verus! {

/// The position reached from `position` by one step forward among `len` variants.
pub open spec fn step_forward(position: int, len: int) -> int {
    (position + 1) % len
}

/// The position reached from `position` by one step back among `len` variants.
pub open spec fn step_back(position: int, len: int) -> int {
    (position + len - 1) % len
}

/// The position reached from `position` by `steps` steps forward among `len` variants.
pub open spec fn advanced(position: int, len: int, steps: nat) -> int
    decreases steps,
{
    if steps == 0 {
        position
    } else {
        step_forward(advanced(position, len, (steps - 1) as nat), len)
    }
}

/// The least number of forward steps, not below `from`, that lead from `position`
/// to a variant equal to `item`; `None` when no variant that far is equal to it.
pub open spec fn steps_until<T: PartialEq>(
    variants: Seq<T>,
    position: int,
    item: T,
    from: nat,
) -> Option<nat>
    decreases variants.len() - from,
{
    if from >= variants.len() {
        None
    } else if variants[(position + from) % (variants.len() as int)].eq_spec(&item) {
        Some(from)
    } else {
        steps_until(variants, position, item, from + 1)
    }
}

/// A `CyclicState` as plain values.
pub ghost struct CyclicView<T> {
    /// The variants in their declared order.
    pub variants: Seq<T>,
    /// The position of the current variant.
    pub position: int,
}

impl<T> CyclicView<T> {
    /// There is at least one variant and the position points at one of them.
    pub open spec fn wf(self) -> bool {
        0 <= self.position < self.variants.len()
    }

    /// The current variant.
    pub open spec fn current(self) -> T {
        self.variants[self.position]
    }

    /// The cycle `steps` steps forward.
    pub open spec fn cycled_by(self, steps: nat) -> CyclicView<T> {
        CyclicView {
            position: advanced(self.position, self.variants.len() as int, steps),
            ..self
        }
    }

    /// The cycle one step forward.
    pub open spec fn cycled(self) -> CyclicView<T> {
        CyclicView { position: step_forward(self.position, self.variants.len() as int), ..self }
    }

    /// The cycle one step back.
    pub open spec fn cycled_back(self) -> CyclicView<T> {
        CyclicView { position: step_back(self.position, self.variants.len() as int), ..self }
    }
}

impl<T: PartialEq> CyclicView<T> {
    /// The cycle stepped forward to the first variant equal to `item`; as it is where
    /// there is none.
    pub open spec fn cycled_to(self, item: T) -> CyclicView<T> {
        match steps_until(self.variants, self.position, item, 0) {
            Some(k) => CyclicView {
                position: (self.position + k) % (self.variants.len() as int),
                ..self
            },
            None => self,
        }
    }
}

/// A closed list of variants with one of them current, stepped round in a circle.
pub struct CyclicState<T> {
    variants: Vec<T>,
    index: usize,
}

impl<T> View for CyclicState<T> {
    type V = CyclicView<T>;

    open spec fn view(&self) -> CyclicView<T> {
        CyclicView { variants: self.variants(), position: self.position() }
    }
}

impl<T> CyclicState<T> {
    /// The variants in their declared order.
    pub closed spec fn variants(&self) -> Seq<T> {
        self.variants@
    }

    /// The position of the current variant.
    pub closed spec fn position(&self) -> int {
        self.index as int
    }

    /// There is at least one variant and the position points at one of them.
    pub open spec fn wf(&self) -> bool {
        self@.wf()
    }

    #[verifier::type_invariant]
    pub(crate) open spec fn inv(&self) -> bool {
        self.wf()
    }

    /// The current variant.
    pub fn item(&self) -> (r: &T)
        ensures
            self.wf(),
            *r == self@.current(),
    {
        proof {
            use_type_invariant(self);
        }
        &self.variants[self.index]
    }

    /// The number of variants.
    pub fn len(&self) -> (n: usize)
        ensures
            self.wf(),
            n == self@.variants.len(),
    {
        proof {
            use_type_invariant(self);
        }
        self.variants.len()
    }

    /// For each variant, in declared order, whether it is the current one.
    pub fn marks(&self) -> (r: Vec<bool>)
        ensures
            r@.len() == self@.variants.len(),
            forall|i: int| 0 <= i < r@.len() ==> #[trigger] r@[i] == (i == self@.position),
    {
        let mut marks: Vec<bool> = Vec::new();
        let mut i: usize = 0;
        while i < self.variants.len()
            invariant
                i <= self.variants.len(),
                marks@.len() == i,
                forall|j: int| 0 <= j < i ==> #[trigger] marks@[j] == (j == self.index),
            decreases self.variants.len() - i,
        {
            marks.push(i == self.index);
            i = i + 1;
        }
        marks
    }

    /// Steps forward to the next variant, from the last one to the first.
    pub fn cycle(&mut self)
        ensures
            final(self).wf(),
            final(self)@ == old(self)@.cycled(),
    {
        proof {
            use_type_invariant(&*self);
        }
        let n = self.variants.len();
        proof {
            lemma_step_forward(self.index as int, n as int);
        }
        if self.index + 1 < n {
            self.index = self.index + 1;
        } else {
            self.index = 0;
        }
    }

    /// Steps back to the variant before, from the first one to the last.
    pub fn cycle_back(&mut self)
        ensures
            final(self).wf(),
            final(self)@ == old(self)@.cycled_back(),
    {
        proof {
            use_type_invariant(&*self);
        }
        let n = self.variants.len();
        proof {
            lemma_step_back(self.index as int, n as int);
        }
        if self.index == 0 {
            self.index = n - 1;
        } else {
            self.index = self.index - 1;
        }
    }
}

impl<T: PartialEq> CyclicState<T> {
    /// A cycle over `variants` that starts at the first of them equal to `item`;
    /// `None` when there is no such variant.
    pub fn new(variants: Vec<T>, item: T) -> (r: Option<Self>)
        ensures
            r matches Some(c) ==> c.wf() && c@.variants == variants@,
            T::obeys_eq_spec() ==> match steps_until(variants@, 0, item, 0) {
                Some(k) => r matches Some(c) && c@.position == k,
                None => r is None,
            },
    {
        let n = variants.len();
        let mut i: usize = 0;
        while i < n
            invariant
                i <= n,
                n == variants@.len(),
                T::obeys_eq_spec() ==> steps_until(variants@, 0, item, 0) == steps_until(
                    variants@,
                    0,
                    item,
                    i as nat,
                ),
            decreases n - i,
        {
            assert((0 + i) % (n as int) == i) by (nonlinear_arith)
                requires
                    0 <= i < n,
            ;
            if variants[i] == item {
                return Some(CyclicState { variants, index: i });
            }
            i = i + 1;
        }
        None
    }

    /// Steps forward until the current variant is equal to `item`: not at all when it
    /// already is, and by less than a whole round otherwise. Where no variant is equal
    /// to `item`, the current variant stays.
    pub fn cycle_to(&mut self, item: T)
        ensures
            final(self).wf(),
            final(self)@.variants == old(self)@.variants,
            T::obeys_eq_spec() ==> final(self)@ == old(self)@.cycled_to(item),
    {
        proof {
            use_type_invariant(&*self);
        }
        let n = self.variants.len();
        let ghost start = self.index as int;
        let ghost variants = self.variants@;
        let mut steps: usize = 0;
        proof {
            lemma_shift_small(start, 0, n as int);
        }
        while steps < n
            invariant
                steps <= n,
                n == variants.len(),
                self.variants@ == variants,
                variants == old(self).variants(),
                start == old(self).position(),
                0 <= start < n,
                0 <= self.index < n,
                self.index as int == (start + steps) % (n as int),
                T::obeys_eq_spec() ==> steps_until(variants, start, item, 0) == steps_until(
                    variants,
                    start,
                    item,
                    steps as nat,
                ),
            decreases n - steps,
        {
            if self.variants[self.index] == item {
                return ;
            }
            proof {
                lemma_shift_next(start, steps as int, n as int);
                lemma_step_forward(self.index as int, n as int);
            }
            if self.index + 1 < n {
                self.index = self.index + 1;
            } else {
                self.index = 0;
            }
            steps = steps + 1;
        }
        proof {
            lemma_shift_whole(start, n as int);
        }
    }
}

/// One step forward is the next position, or the first one after the last.
pub proof fn lemma_step_forward(position: int, len: int)
    requires
        0 <= position < len,
    ensures
        step_forward(position, len) == if position + 1 < len {
            position + 1
        } else {
            0
        },
{
    if position + 1 < len {
        assert((position + 1) % len == position + 1) by (nonlinear_arith)
            requires
                0 <= position + 1 < len,
        ;
    } else {
        assert((position + 1) % len == 0) by (nonlinear_arith)
            requires
                position + 1 == len,
                len > 0,
        ;
    }
}

/// One step back is the position before, or the last one before the first.
pub proof fn lemma_step_back(position: int, len: int)
    requires
        0 <= position < len,
    ensures
        step_back(position, len) == if position == 0 {
            len - 1
        } else {
            position - 1
        },
{
    if position == 0 {
        assert((position + len - 1) % len == len - 1) by (nonlinear_arith)
            requires
                position == 0,
                len > 0,
        ;
    } else {
        assert((position + len - 1) % len == position - 1) by (nonlinear_arith)
            requires
                0 < position < len,
        ;
    }
}

proof fn lemma_shift_small(start: int, steps: int, len: int)
    requires
        0 <= start + steps < len,
    ensures
        (start + steps) % len == start + steps,
{
    assert((start + steps) % len == start + steps) by (nonlinear_arith)
        requires
            0 <= start + steps < len,
    ;
}

proof fn lemma_shift_next(start: int, steps: int, len: int)
    requires
        0 <= start < len,
        0 <= steps,
    ensures
        (start + steps + 1) % len == step_forward((start + steps) % len, len),
        0 <= (start + steps) % len < len,
{
    assert((start + steps + 1) % len == (((start + steps) % len) + 1) % len) by (nonlinear_arith)
        requires
            len > 0,
    ;
    assert(0 <= (start + steps) % len < len) by (nonlinear_arith)
        requires
            len > 0,
    ;
}

proof fn lemma_shift_whole(start: int, len: int)
    requires
        0 <= start < len,
    ensures
        (start + len) % len == start,
{
    assert((start + len) % len == start) by (nonlinear_arith)
        requires
            0 <= start < len,
    ;
}

/// Some steps forward from a position lead to the position that many places further
/// round the circle.
pub proof fn lemma_advanced(position: int, len: int, steps: nat)
    requires
        0 <= position < len,
    ensures
        advanced(position, len, steps) == (position + steps) % len,
        0 <= advanced(position, len, steps) < len,
    decreases steps,
{
    if steps == 0 {
        lemma_shift_small(position, 0, len);
    } else {
        lemma_advanced(position, len, (steps - 1) as nat);
        lemma_shift_next(position, steps - 1, len);
    }
}

/// Stepping forward once more is one more step forward, and keeps the cycle well
/// formed.
pub proof fn lemma_cycled_by<T>(cycle: CyclicView<T>, steps: nat)
    requires
        cycle.wf(),
    ensures
        cycle.cycled_by(0) == cycle,
        cycle.cycled_by(steps + 1) == cycle.cycled_by(steps).cycled(),
        cycle.cycled_by(steps).wf(),
        cycle.cycled().wf(),
        cycle.cycled_back().wf(),
{
    lemma_advanced(cycle.position, cycle.variants.len() as int, steps);
    lemma_step_forward(cycle.position, cycle.variants.len() as int);
    lemma_step_back(cycle.position, cycle.variants.len() as int);
}

/// As many steps forward as there are variants lead back to where they started.
pub proof fn lemma_cycle_round<T>(cycle: CyclicView<T>)
    requires
        cycle.wf(),
    ensures
        cycle.cycled_by(cycle.variants.len()) == cycle,
{
    lemma_advanced(cycle.position, cycle.variants.len() as int, cycle.variants.len());
    lemma_shift_whole(cycle.position, cycle.variants.len() as int);
}

/// A step forward and a step back, in either order, lead back to where they started.
pub proof fn lemma_cycle_and_back<T>(cycle: CyclicView<T>)
    requires
        cycle.wf(),
    ensures
        cycle.cycled().cycled_back() == cycle,
        cycle.cycled_back().cycled() == cycle,
{
    let position = cycle.position;
    let len = cycle.variants.len() as int;
    lemma_step_forward(position, len);
    lemma_step_back(position, len);
    lemma_step_back(step_forward(position, len), len);
    lemma_step_forward(step_back(position, len), len);
}

/// Stepping to a variant is stepping forward by fewer steps than there are variants:
/// by none where the current variant is equal to it already, and to a variant equal
/// to it where there is one.
pub proof fn lemma_cycled_to<T: PartialEq>(cycle: CyclicView<T>, item: T)
    requires
        cycle.wf(),
    ensures
        match steps_until(cycle.variants, cycle.position, item, 0) {
            Some(k) => k < cycle.variants.len() && cycle.cycled_to(item) == cycle.cycled_by(k)
                && cycle.cycled_to(item).current().eq_spec(&item),
            None => cycle.cycled_to(item) == cycle,
        },
        cycle.current().eq_spec(&item) ==> cycle.cycled_to(item) == cycle,
        cycle.cycled_to(item).wf(),
{
    lemma_steps_until(cycle.variants, cycle.position, item, 0);
    match steps_until(cycle.variants, cycle.position, item, 0) {
        Some(k) => {
            lemma_advanced(cycle.position, cycle.variants.len() as int, k);
        },
        None => {},
    }
    if cycle.current().eq_spec(&item) {
        lemma_shift_small(cycle.position, 0, cycle.variants.len() as int);
    }
}

/// The steps to a variant equal to `item` are fewer than there are variants, lead to
/// such a variant and pass none; they are none at all where the variant at `position`
/// is equal to `item` already, and there are none to take only where no variant is
/// equal to it.
pub proof fn lemma_steps_until<T: PartialEq>(
    variants: Seq<T>,
    position: int,
    item: T,
    from: nat,
)
    requires
        0 <= position < variants.len(),
    ensures
        match steps_until(variants, position, item, from) {
            Some(k) => from <= k < variants.len() && variants[(position + k) % (
            variants.len() as int)].eq_spec(&item) && forall|j: int|
                from <= j < k ==> !(#[trigger] variants[(position + j) % (
                variants.len() as int)]).eq_spec(&item),
            None => forall|j: int|
                from <= j < variants.len() ==> !(#[trigger] variants[(position + j) % (
                variants.len() as int)]).eq_spec(&item),
        },
        from == 0 && variants[position].eq_spec(&item) ==> steps_until(
            variants,
            position,
            item,
            from,
        ) == Some(0nat),
    decreases variants.len() - from,
{
    if from < variants.len() {
        lemma_steps_until(variants, position, item, from + 1);
    }
    if from == 0 {
        lemma_shift_small(position, 0, variants.len() as int);
    }
}

/// Where the cursor of a list of `len` items stands after a step down from `cursor`:
/// one item further, but not past the last; on the first item where there was no
/// cursor; and where it was if the list is empty.
pub open spec fn cursor_after_next(cursor: Option<usize>, len: nat) -> Option<usize> {
    if len == 0 {
        cursor
    } else {
        match cursor {
            Some(i) => if i + 1 < len {
                Some((i + 1) as usize)
            } else {
                Some(i)
            },
            None => Some(0usize),
        }
    }
}

/// Where the cursor of a list of `len` items stands after a step up from `cursor`:
/// one item back, but not before the first; on the first item where there was no
/// cursor; and where it was if the list is empty.
pub open spec fn cursor_after_previous(cursor: Option<usize>, len: nat) -> Option<usize> {
    if len == 0 {
        cursor
    } else {
        match cursor {
            Some(i) => if i > 0 {
                Some((i - 1) as usize)
            } else {
                Some(i)
            },
            None => Some(0usize),
        }
    }
}

/// Where the cursor stands on content of `len` items that was just put in place: on
/// the first item, or nowhere if there is none.
pub open spec fn cursor_at_start(len: nat) -> Option<usize> {
    if len > 0 {
        Some(0usize)
    } else {
        None
    }
}

/// A `SelectableList` as plain values.
pub ghost struct SelectableListView<T> {
    /// The items, in order.
    pub content: Seq<T>,
    /// The position of the selected item, if one is selected.
    pub cursor: Option<usize>,
    /// The text typed so far to search by.
    pub query: Seq<char>,
}

impl<T> SelectableListView<T> {
    /// The cursor, if there is one, points at an item.
    pub open spec fn wf(self) -> bool {
        self.cursor matches Some(i) ==> i < self.content.len()
    }

    /// The list with `content` put in place of all it held: the cursor is on the first
    /// item, if there is one, and the query is empty.
    pub open spec fn refreshed(content: Seq<T>) -> SelectableListView<T> {
        SelectableListView {
            content,
            cursor: cursor_at_start(content.len()),
            query: Seq::empty(),
        }
    }

    /// The list with the cursor one item down.
    pub open spec fn after_next(self) -> SelectableListView<T> {
        SelectableListView { cursor: cursor_after_next(self.cursor, self.content.len()), ..self }
    }

    /// The list with the cursor one item up.
    pub open spec fn after_previous(self) -> SelectableListView<T> {
        SelectableListView {
            cursor: cursor_after_previous(self.cursor, self.content.len()),
            ..self
        }
    }

    /// The list with `c` added to the end of its query.
    pub open spec fn typed(self, c: char) -> SelectableListView<T> {
        SelectableListView { query: self.query.push(c), ..self }
    }

    /// The list with the last character, if there is one, taken off its query.
    pub open spec fn erased(self) -> SelectableListView<T> {
        SelectableListView {
            query: if self.query.len() > 0 {
                self.query.drop_last()
            } else {
                self.query
            },
            ..self
        }
    }

    /// The selected item, if one is selected.
    pub open spec fn selected(self) -> Option<T> {
        match self.cursor {
            Some(i) => Some(self.content[i as int]),
            None => None,
        }
    }
}

/// An ordered list of items with at most one of them selected, and the text typed so
/// far to search by.
pub struct SelectableList<T> {
    content: Vec<T>,
    cursor: Option<usize>,
    query: String,
}

impl<T> View for SelectableList<T> {
    type V = SelectableListView<T>;

    closed spec fn view(&self) -> SelectableListView<T> {
        SelectableListView { content: self.content@, cursor: self.cursor, query: self.query@ }
    }
}

impl<T> SelectableList<T> {
    #[verifier::type_invariant]
    pub(crate) open spec fn inv(&self) -> bool {
        self@.wf()
    }

    /// A list without items, cursor or query.
    pub fn new() -> (r: Self)
        ensures
            r@ == SelectableListView::<T>::refreshed(Seq::empty()),
    {
        SelectableList { content: Vec::new(), cursor: None, query: String::new() }
    }

    /// A list of the items `content`, none of them selected, with an empty query.
    pub fn with_content(content: Vec<T>) -> (r: Self)
        ensures
            r@ == (SelectableListView { content: content@, cursor: None, query: Seq::empty() }),
    {
        SelectableList { content, cursor: None, query: String::new() }
    }

    /// Puts `content` in place of all that the list held, moves the cursor to the
    /// first item, if there is one, and empties the query.
    pub fn refresh(&mut self, content: Vec<T>)
        ensures
            final(self)@ == SelectableListView::<T>::refreshed(content@),
            final(self)@.wf(),
    {
        let cursor = if content.len() > 0 {
            Some(0)
        } else {
            None
        };
        *self = SelectableList { content, cursor, query: String::new() };
    }

    /// Takes every item out of the list.
    pub fn clear(&mut self)
        ensures
            final(self)@ == SelectableListView::<T>::refreshed(Seq::empty()),
    {
        self.refresh(Vec::new())
    }

    /// Whether the list holds no item.
    pub fn is_empty(&self) -> (r: bool)
        ensures
            r == (self@.content.len() == 0),
    {
        self.content.len() == 0
    }

    /// The number of items.
    pub fn len(&self) -> (n: usize)
        ensures
            n == self@.content.len(),
    {
        self.content.len()
    }

    /// Moves the cursor one item down; it stays on the last item, and an empty list
    /// stays as it is.
    pub fn next(&mut self)
        ensures
            final(self)@ == old(self)@.after_next(),
            final(self)@.wf(),
    {
        proof {
            use_type_invariant(&*self);
        }
        let n = self.content.len();
        if n > 0 {
            self.cursor = match self.cursor {
                Some(i) => if i + 1 < n {
                    Some(i + 1)
                } else {
                    Some(i)
                },
                None => Some(0),
            };
        }
    }

    /// Moves the cursor one item up; it stays on the first item, and an empty list
    /// stays as it is.
    pub fn previous(&mut self)
        ensures
            final(self)@ == old(self)@.after_previous(),
            final(self)@.wf(),
    {
        proof {
            use_type_invariant(&*self);
        }
        let n = self.content.len();
        if n > 0 {
            self.cursor = match self.cursor {
                Some(i) => if i > 0 {
                    Some(i - 1)
                } else {
                    Some(i)
                },
                None => Some(0),
            };
        }
    }

    /// The selected item, if one is selected.
    pub fn select(&self) -> (r: Option<&T>)
        ensures
            self@.wf(),
            match r {
                Some(item) => self@.selected() == Some(*item),
                None => self@.selected() is None,
            },
    {
        proof {
            use_type_invariant(self);
        }
        match self.cursor {
            Some(i) => Some(&self.content[i]),
            None => None,
        }
    }

    /// The position of the selected item, if one is selected.
    pub fn select_idx(&self) -> (r: Option<usize>)
        ensures
            self@.wf(),
            r == self@.cursor,
    {
        proof {
            use_type_invariant(self);
        }
        self.cursor
    }

    /// The items, in order.
    pub fn content(&self) -> (r: &Vec<T>)
        ensures
            r@ == self@.content,
    {
        &self.content
    }

    /// The text typed so far to search by.
    pub fn query(&self) -> (r: &str)
        ensures
            r@ == self@.query,
    {
        self.query.as_str()
    }

    /// Adds the character `c` to the end of the query.
    pub fn type_query(&mut self, c: char)
        ensures
            final(self)@ == old(self)@.typed(c),
            final(self)@.wf(),
    {
        proof {
            use_type_invariant(&*self);
        }
        let mut query = String::new();
        core::mem::swap(&mut self.query, &mut query);
        query.push(c);
        self.query = query;
    }

    /// Takes the last character off the query, if it has one.
    pub fn erase_query(&mut self)
        ensures
            final(self)@ == old(self)@.erased(),
            final(self)@.wf(),
    {
        proof {
            use_type_invariant(&*self);
        }
        let mut query = String::new();
        core::mem::swap(&mut self.query, &mut query);
        query.pop();
        self.query = query;
    }
}

/// The results of a search in the catalog, with the text typed to search by.
pub type OnlineItems = SelectableList<GBSearchEntry>;

/// The mods of one side of the local collection.
pub type LocalItems = SelectableList<Mod>;

/// The categories to browse by.
pub type Categories = SelectableList<GBModCategory>;

/// By what a search selects: by the category where one other than 0 is chosen,
/// whatever the query holds; else by the query as a name where it is not empty; else
/// all mods of the game.
pub open spec fn chosen_filter(category: Option<usize>, query: Seq<char>) -> SearchFilterView {
    match category {
        Some(id) if id != 0 => SearchFilterView::Category { cat_id: id as nat },
        _ => if query.len() == 0 {
            SearchFilterView::Game { game_id: GAME_ID as nat }
        } else {
            SearchFilterView::Name { search: query, game_id: GAME_ID as nat }
        },
    }
}

/// The category that a search is narrowed to: the chosen one unless it is 0.
pub open spec fn effective_category(category: Option<usize>) -> Option<usize> {
    match category {
        Some(id) if id != 0 => Some(id),
        _ => None,
    }
}

/// What a search asks the catalog for, given the kind, the order, the chosen category
/// and the query.
pub open spec fn search_request(
    section: TypeFilter,
    sort: FeedFilter,
    category: Option<usize>,
    query: Seq<char>,
) -> SearchBuilderView {
    SearchBuilderView {
        mod_type: section,
        feed: sort,
        search: chosen_filter(category, query),
        category: effective_category(category),
        ..SearchBuilderView::initial()
    }
}

/// The address that asks the catalog for page `page` of a search.
pub open spec fn search_url(
    section: TypeFilter,
    sort: FeedFilter,
    category: Option<usize>,
    query: Seq<char>,
    page: nat,
) -> Seq<char> {
    catalog_root() + search_request(section, sort, category, query).query() + page_suffix(page)
}

/// What a search of the catalog goes by.
#[derive(Debug)]
pub struct FilterState {
    /// The kind of mod that is asked for.
    pub section: TypeFilter,
    /// The order in which results are listed.
    pub sort: FeedFilter,
    /// The chosen category, if one is chosen; 0 stands for none.
    pub category: Option<usize>,
    /// The text to search names by; it counts only where no category is chosen.
    pub name_query: String,
    /// The page of results that is asked for.
    pub page: usize,
}

impl FilterState {
    /// The address that asks the catalog for what the filter describes.
    pub fn url(&self) -> (url: String)
        ensures
            url@ == search_url(
                self.section,
                self.sort,
                self.category,
                self.name_query@,
                self.page as nat,
            ),
    {
        query_url(self.section, self.sort, self.category, self.name_query.as_str(), self.page)
    }
}

/// The address that asks the catalog for page `page` of the mods of kind `section` in
/// the order `sort`: those of `category` where one other than 0 is chosen, else those
/// whose name holds `query`, else all.
fn query_url(
    section: TypeFilter,
    sort: FeedFilter,
    category: Option<usize>,
    query: &str,
    page: usize,
) -> (url: String)
    ensures
        url@ == search_url(section, sort, category, query@, page as nat),
{
    let search_type = match category {
        Some(cat_id) if cat_id != 0 => SearchFilter::Category { cat_id },
        _ => {
            if query.is_empty() {
                SearchFilter::Game { game_id: GAME_ID }
            } else {
                SearchFilter::Name { search: query, game_id: GAME_ID }
            }
        },
    };
    let narrowed = match category {
        Some(id) if id != 0 => Some(id),
        _ => None,
    };
    let search = SearchBuilder::new().of_type(section).with_sort(sort).by_search(
        search_type,
    ).of_category(narrowed);
    search.build().page(page)
}

impl SelectableList<GBSearchEntry> {
    /// The address that asks the catalog for page `page` of the mods of kind `section`
    /// in the order `sort`: those of `category` where one other than 0 is chosen, else
    /// those whose name holds the query, else all.
    pub fn request(
        &self,
        section: TypeFilter,
        sort: FeedFilter,
        category: Option<usize>,
        page: usize,
    ) -> (url: String)
        ensures
            url@ == search_url(section, sort, category, self@.query, page as nat),
    {
        query_url(section, sort, category, self.query.as_str(), page)
    }

    /// Takes in what the catalog answered to a search: on success the results replace
    /// all that the list held, with the cursor on the first and the query emptied; on
    /// failure the list stays as it was and the error is handed on.
    pub fn search(&mut self, fetched: Result<Vec<GBSearchEntry>, ModError>) -> (r: Result<
        (),
        ModError,
    >)
        ensures
            final(self)@.wf(),
            match fetched {
                Ok(results) => r is Ok && final(self)@ == SelectableListView::<
                    GBSearchEntry,
                >::refreshed(results@),
                Err(e) => r == Err::<(), ModError>(e) && final(self)@ == old(self)@,
            },
    {
        proof {
            use_type_invariant(&*self);
        }
        match fetched {
            Ok(results) => {
                self.refresh(results);
                Ok(())
            },
            Err(e) => Err(e),
        }
    }
}

impl SelectableList<GBModCategory> {
    /// The categories to browse by, as the catalog listed them: the entry for "no
    /// category" first, which is selected. Where the catalog could not be asked, the
    /// list is empty.
    pub fn fetched(listed: Result<Vec<GBModCategory>, ModError>) -> (r: Self)
        ensures
            match listed {
                Ok(categories) => r@.content.len() == categories@.len() + 1
                    && r@.content[0].is_none_entry() && r@.content.skip(1) == categories@
                    && r@.cursor == Some(0usize),
                Err(_) => r@.content.len() == 0 && r@.cursor is None,
            },
            r@.query.len() == 0,
    {
        let mut this = SelectableList::new();
        match listed {
            Ok(categories) => {
                this.refresh(GBModCategory::build(categories));
            },
            Err(_) => {},
        }
        this
    }

    /// The id of the selected category, if one is selected.
    pub fn selected_row(&self) -> (r: Option<usize>)
        ensures
            r == match self@.selected() {
                Some(category) => Some(category.row),
                None => None,
            },
    {
        match self.select() {
            Some(category) => Some(category.row),
            None => None,
        }
    }
}

/// The file variants of a search result, offered for choice.
pub struct PopupItems {
    /// The file variants.
    pub items: SelectableList<GBFile>,
    /// The search result whose files these are.
    pub entry: Option<GBSearchEntry>,
}

impl PopupItems {
    /// No variants to choose from.
    pub fn empty() -> (r: Self)
        ensures
            r.items@ == SelectableListView::<GBFile>::refreshed(Seq::empty()),
            r.entry is None,
    {
        PopupItems { items: SelectableList::new(), entry: None }
    }

    /// The file variants that `page` offers for the search result `entry`, none of
    /// them selected.
    pub fn new(entry: GBSearchEntry, page: GBModPage) -> (r: Self)
        ensures
            r.items@ == (SelectableListView {
                content: page.files@,
                cursor: None,
                query: Seq::empty(),
            }),
            r.entry == Some(entry),
    {
        PopupItems { items: SelectableList::with_content(page.files), entry: Some(entry) }
    }

    /// The position of the chosen variant, if one is chosen.
    pub fn select_idx(&self) -> (r: Option<usize>)
        ensures
            r == self.items@.cursor,
            self.items@.wf(),
    {
        self.items.select_idx()
    }
}

/// The cursor of a list never leaves its items: new content and every step keep it on
/// an item, or nowhere, and a step changes nothing on an empty list.
pub proof fn lemma_cursor_in_bounds<T>(list: SelectableListView<T>, content: Seq<T>, c: char)
    requires
        list.wf(),
    ensures
        list.after_next().wf(),
        list.after_previous().wf(),
        list.typed(c).wf(),
        list.erased().wf(),
        SelectableListView::<T>::refreshed(content).wf(),
        list.content.len() == 0 ==> list.after_next() == list && list.after_previous() == list,
{
}

/// Where a category other than 0 is chosen, the search selects by it and by no name,
/// and asks the same of the catalog whatever the query holds.
pub proof fn lemma_category_precedence(
    section: TypeFilter,
    sort: FeedFilter,
    id: usize,
    query: Seq<char>,
    other: Seq<char>,
    page: nat,
)
    requires
        id != 0,
    ensures
        chosen_filter(Some(id), query) == (SearchFilterView::Category { cat_id: id as nat }),
        !(chosen_filter(Some(id), query) is Name),
        search_url(section, sort, Some(id), query, page) == search_url(
            section,
            sort,
            Some(id),
            other,
            page,
        ),
{
}

} // verus!
