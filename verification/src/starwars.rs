//! The Star Wars schema: characters, their friends, the hero of each film,
//! and cursor pagination over the humans and the droids.
use vstd::prelude::*;

verus! {

/// One of the films in the Star Wars Trilogy.
#[derive(Debug, Clone, Copy, PartialEq, Eq, Structural)]
pub enum Episode {
    /// Released in 1977.
    NewHope,
    /// Released in 1980.
    Empire,
    /// Released in 1983.
    Jedi,
}

/// The slice of a list that one page shows: the items with positions
/// `from .. to`, each with its position as cursor, and whether the client is
/// told there are more items before and after.
#[derive(Debug, Clone, Copy, PartialEq, Eq, Structural)]
pub struct PageWindow {
    pub from: usize,
    pub to: usize,
    pub has_previous_page: bool,
    pub has_next_page: bool,
}

pub open spec fn min(a: int, b: int) -> int {
    if a <= b { a } else { b }
}

/// The window that a page request selects from a list of `n` items, as the
/// resolver computes it:
/// - an `after` cursor at or past the end, or a `before` cursor of 0, gives an
///   empty page with no neighbours;
/// - otherwise the range runs from just after `after` (or 0) up to `before`
///   (or `n`);
/// - `first` keeps its first `k` items, where `k` is `first` capped at the
///   range's length, and lowers the range's end by `k`; `last` (only when no
///   `first` is given) keeps its last `k` items and moves the start to them;
/// - there are previous items when the start is past 0, next items when the
///   (possibly lowered) end is before `n`.
pub open spec fn spec_page(
    after: Option<usize>,
    before: Option<usize>,
    first: Option<usize>,
    last: Option<usize>,
    n: int,
) -> (int, int, bool, bool) {
    if after matches Some(a) && a >= n {
        (0, 0, false, false)
    } else if before matches Some(b) && b == 0 {
        (0, 0, false, false)
    } else {
        let start: int = match after {
            Some(a) => a + 1,
            None => 0,
        };
        let end: int = match before {
            Some(b) => b as int,
            None => n,
        };
        match first {
            Some(f) => {
                let k = min(f as int, end - start);
                (start, start + k, start > 0, end - k < n)
            },
            None => match last {
                Some(l) => {
                    let k = min(l as int, end - start);
                    (end - k, end, end - k > 0, end < n)
                },
                None => (start, end, start > 0, end < n),
            },
        }
    }
}

/// The requests on which the resolver does not slice out of bounds: unless
/// one of the early empty answers applies, the range between the cursors must
/// lie within the list.
pub open spec fn page_in_bounds(after: Option<usize>, before: Option<usize>, n: int) -> bool {
    (after matches Some(a) && a >= n) || (before matches Some(b) && b == 0) || {
        let start: int = match after {
            Some(a) => a + 1,
            None => 0,
        };
        let end: int = match before {
            Some(b) => b as int,
            None => n,
        };
        start <= end && end <= n
    }
}

/// Whether `w` is the window `spec_page` describes.
pub open spec fn window_is(w: PageWindow, p: (int, int, bool, bool)) -> bool {
    &&& w.from as int == p.0
    &&& w.to as int == p.1
    &&& w.has_previous_page == p.2
    &&& w.has_next_page == p.3
}

/// Computes the window of a page request over a list of `n` items.
pub fn page_window(
    after: Option<usize>,
    before: Option<usize>,
    first: Option<usize>,
    last: Option<usize>,
    n: usize,
) -> (w: PageWindow)
    requires
        page_in_bounds(after, before, n as int),
    ensures
        window_is(w, spec_page(after, before, first, last, n as int)),
        w.from <= w.to <= n,
{
    let mut start: usize = 0;
    let mut end: usize = n;
    if let Some(after) = after {
        if after >= n {
            return PageWindow { from: 0, to: 0, has_previous_page: false, has_next_page: false };
        }
        start = after + 1;
    }
    if let Some(before) = before {
        if before == 0 {
            return PageWindow { from: 0, to: 0, has_previous_page: false, has_next_page: false };
        }
        end = before;
    }
    let len = end - start;
    let mut from = start;
    let mut to = end;
    if let Some(first) = first {
        let k = if first < len { first } else { len };
        to = start + k;
        end = end - k;
    } else if let Some(last) = last {
        let k = if last < len { last } else { len };
        from = end - k;
        start = end - k;
    }
    PageWindow { from, to, has_previous_page: start > 0, has_next_page: end < n }
}

/// A character of the saga, human or droid.
#[derive(Debug)]
pub struct StarWarsChar {
    pub id: String,
    pub name: String,
    pub is_human: bool,
    /// Positions of the character's friends in the saga's character list.
    pub friends: Vec<usize>,
    pub appears_in: Vec<Episode>,
    pub home_planet: Option<String>,
    pub primary_function: Option<String>,
}

/// The saga's characters, with the positions of its two heroes.
#[derive(Debug)]
pub struct StarWars {
    pub luke: usize,
    pub artoo: usize,
    pub chars: Vec<StarWarsChar>,
}

/// The test for human characters.
pub open spec fn human_pred() -> spec_fn(StarWarsChar) -> bool {
    |c: StarWarsChar| c.is_human
}

/// The test for droid characters.
pub open spec fn droid_pred() -> spec_fn(StarWarsChar) -> bool {
    |c: StarWarsChar| !c.is_human
}

/// The characters that a list of references points to.
pub open spec fn deref_chars(s: Seq<&StarWarsChar>) -> Seq<StarWarsChar> {
    s.map_values(|c: &StarWarsChar| *c)
}

impl StarWars {
    /// The heroes are characters of the saga, ids are unique, and every
    /// friend is a character of the saga.
    pub open spec fn well_formed(&self) -> bool {
        &&& self.luke < self.chars.len()
        &&& self.artoo < self.chars.len()
        &&& forall|i: int, j: int|
            0 <= i < self.chars.len() && 0 <= j < self.chars.len() && i != j
                ==> #[trigger] self.chars[i].id@ != #[trigger] self.chars[j].id@
        &&& forall|i: int, k: int|
            0 <= i < self.chars.len() && 0 <= k < self.chars[i].friends.len()
                ==> #[trigger] self.chars[i].friends[k] < self.chars.len()
    }

    /// The human characters, in the saga's order.
    pub open spec fn spec_humans(&self) -> Seq<StarWarsChar> {
        self.chars@.filter(human_pred())
    }

    /// The droid characters, in the saga's order.
    pub open spec fn spec_droids(&self) -> Seq<StarWarsChar> {
        self.chars@.filter(droid_pred())
    }

    /// The human characters, in the saga's order.
    pub fn humans(&self) -> (r: Vec<&StarWarsChar>)
        ensures
            deref_chars(r@) == self.spec_humans(),
    {
        let mut out: Vec<&StarWarsChar> = Vec::new();
        let n = self.chars.len();
        let ghost pred = human_pred();
        let mut i: usize = 0;
        while i < n
            invariant
                n == self.chars.len(),
                i <= n,
                pred == human_pred(),
                deref_chars(out@) =~= self.chars@.take(i as int).filter(pred),
            decreases n - i,
        {
            reveal_with_fuel(Seq::filter, 1);
            assert(self.chars@.take((i + 1) as int).drop_last() =~= self.chars@.take(i as int));
            let ghost before = out@;
            if self.chars[i].is_human {
                out.push(&self.chars[i]);
                assert(deref_chars(out@) =~= before.map_values(
                    |c: &StarWarsChar| *c,
                ).push(self.chars@[i as int]));
            }
            assert(self.chars@.take((i + 1) as int).last() == self.chars@[i as int]);
            assert(self.chars@.take((i + 1) as int).filter(pred) == (if pred(self.chars@[i as int]) {
                self.chars@.take(i as int).filter(pred).push(self.chars@[i as int])
            } else {
                self.chars@.take(i as int).filter(pred)
            }));
            i = i + 1;
        }
        assert(self.chars@.take(n as int) =~= self.chars@);
        out
    }

    /// The droid characters, in the saga's order.
    pub fn droids(&self) -> (r: Vec<&StarWarsChar>)
        ensures
            deref_chars(r@) == self.spec_droids(),
    {
        let mut out: Vec<&StarWarsChar> = Vec::new();
        let n = self.chars.len();
        let ghost pred = droid_pred();
        let mut i: usize = 0;
        while i < n
            invariant
                n == self.chars.len(),
                i <= n,
                pred == droid_pred(),
                deref_chars(out@) =~= self.chars@.take(i as int).filter(pred),
            decreases n - i,
        {
            reveal_with_fuel(Seq::filter, 1);
            assert(self.chars@.take((i + 1) as int).drop_last() =~= self.chars@.take(i as int));
            let ghost before = out@;
            if !self.chars[i].is_human {
                out.push(&self.chars[i]);
                assert(deref_chars(out@) =~= before.map_values(
                    |c: &StarWarsChar| *c,
                ).push(self.chars@[i as int]));
            }
            assert(self.chars@.take((i + 1) as int).last() == self.chars@[i as int]);
            assert(self.chars@.take((i + 1) as int).filter(pred) == (if pred(self.chars@[i as int]) {
                self.chars@.take(i as int).filter(pred).push(self.chars@[i as int])
            } else {
                self.chars@.take(i as int).filter(pred)
            }));
            i = i + 1;
        }
        assert(self.chars@.take(n as int) =~= self.chars@);
        out
    }
}

impl StarWars {
    /// The friends of `ch`, in the order `ch` lists them.
    pub fn friends(&self, ch: &StarWarsChar) -> (r: Vec<&StarWarsChar>)
        requires
            forall|k: int| 0 <= k < ch.friends.len() ==> #[trigger] ch.friends[k] < self.chars.len(),
        ensures
            r.len() == ch.friends.len(),
            forall|k: int| 0 <= k < r.len() ==> *#[trigger] r[k] == self.chars[ch.friends[k] as int],
    {
        let mut out: Vec<&StarWarsChar> = Vec::new();
        let mut k: usize = 0;
        while k < ch.friends.len()
            invariant
                k <= ch.friends.len(),
                out.len() == k,
                forall|j: int| 0 <= j < ch.friends.len() ==> #[trigger] ch.friends[j] < self.chars.len(),
                forall|j: int| 0 <= j < k ==> *#[trigger] out[j] == self.chars[ch.friends[j] as int],
            decreases ch.friends.len() - k,
        {
            let idx = ch.friends[k];
            out.push(&self.chars[idx]);
            k = k + 1;
        }
        out
    }

    /// The position of the character with the given id, if there is one.
    pub fn position_of(&self, id: &String) -> (r: Option<usize>)
        ensures
            r matches Some(i) ==> i < self.chars.len() && self.chars[i as int].id@ == id@,
            r is None ==> forall|i: int| 0 <= i < self.chars.len() ==> #[trigger] self.chars[i].id@ != id@,
    {
        let mut i: usize = 0;
        while i < self.chars.len()
            invariant
                i <= self.chars.len(),
                forall|j: int| 0 <= j < i ==> #[trigger] self.chars[j].id@ != id@,
            decreases self.chars.len() - i,
        {
            if self.chars[i].id.eq(id) {
                return Some(i);
            }
            i = i + 1;
        }
        None
    }

    /// The human with the given id, if the saga has one.
    pub fn human(&self, id: &String) -> (r: Option<&StarWarsChar>)
        requires
            self.well_formed(),
        ensures
            r is Some <==> exists|i: int| 0 <= i < self.chars.len() && #[trigger] self.chars[i].id@ == id@ && self.chars[i].is_human,
            r matches Some(c) ==> exists|i: int| 0 <= i < self.chars.len() && *c == #[trigger] self.chars[i] && c.id@ == id@ && c.is_human,
    {
        match self.position_of(id) {
            Some(i) => if self.chars[i].is_human {
                Some(&self.chars[i])
            } else {
                None
            },
            None => None,
        }
    }

    /// The droid with the given id, if the saga has one.
    pub fn droid(&self, id: &String) -> (r: Option<&StarWarsChar>)
        requires
            self.well_formed(),
        ensures
            r is Some <==> exists|i: int| 0 <= i < self.chars.len() && #[trigger] self.chars[i].id@ == id@ && !self.chars[i].is_human,
            r matches Some(c) ==> exists|i: int| 0 <= i < self.chars.len() && *c == #[trigger] self.chars[i] && c.id@ == id@ && !c.is_human,
    {
        match self.position_of(id) {
            Some(i) => if !self.chars[i].is_human {
                Some(&self.chars[i])
            } else {
                None
            },
            None => None,
        }
    }
}

/// A humanoid creature in the Star Wars universe.
#[derive(Debug)]
pub struct Human<'a>(pub &'a StarWarsChar);

/// A mechanical creature in the Star Wars universe.
#[derive(Debug)]
pub struct Droid<'a>(pub &'a StarWarsChar);

/// A character of either kind.
#[derive(Debug)]
pub enum Character<'a> {
    Human(Human<'a>),
    Droid(Droid<'a>),
}

/// The character that a `Character` stands for.
pub open spec fn character_char<'a>(c: Character<'a>) -> StarWarsChar {
    match c {
        Character::Human(h) => *h.0,
        Character::Droid(d) => *d.0,
    }
}

/// Wraps a character as a human or a droid, as its kind says.
pub fn as_character<'a>(ch: &'a StarWarsChar) -> (r: Character<'a>)
    ensures
        character_char(r) == *ch,
        r is Human <==> ch.is_human,
{
    if ch.is_human {
        Character::Human(Human(ch))
    } else {
        Character::Droid(Droid(ch))
    }
}

/// The friends of `ch` in the saga, each as a human or a droid.
fn friends_of<'b>(star_wars: &'b StarWars, ch: &StarWarsChar) -> (r: Vec<Character<'b>>)
    requires
        forall|k: int| 0 <= k < ch.friends.len() ==> #[trigger] ch.friends[k] < star_wars.chars.len(),
    ensures
        r.len() == ch.friends.len(),
        forall|k: int|
            0 <= k < r.len() ==> character_char(#[trigger] r[k]) == star_wars.chars[ch.friends[k] as int]
                && (r[k] is Human <==> star_wars.chars[ch.friends[k] as int].is_human),
{
    let friends = star_wars.friends(ch);
    let mut out: Vec<Character<'b>> = Vec::new();
    let mut k: usize = 0;
    while k < friends.len()
        invariant
            k <= friends.len(),
            friends.len() == ch.friends.len(),
            out.len() == k,
            forall|j: int| 0 <= j < friends.len() ==> *#[trigger] friends[j] == star_wars.chars[ch.friends[j] as int],
            forall|j: int|
                0 <= j < k ==> character_char(#[trigger] out[j]) == star_wars.chars[ch.friends[j] as int]
                    && (out[j] is Human <==> star_wars.chars[ch.friends[j] as int].is_human),
        decreases friends.len() - k,
    {
        out.push(as_character(friends[k]));
        k = k + 1;
    }
    out
}

impl<'a> Human<'a> {
    /// The id of the human.
    pub fn id(&self) -> (r: &str)
        ensures
            r@ == self.0.id@,
    {
        self.0.id.as_str()
    }

    /// The name of the human.
    pub fn name(&self) -> (r: &str)
        ensures
            r@ == self.0.name@,
    {
        self.0.name.as_str()
    }

    /// The friends of the human, or an empty list if they have none.
    pub fn friends<'b>(&self, star_wars: &'b StarWars) -> (r: Vec<Character<'b>>)
        requires
            forall|k: int| 0 <= k < self.0.friends.len() ==> #[trigger] self.0.friends[k] < star_wars.chars.len(),
        ensures
            r.len() == self.0.friends.len(),
            forall|k: int|
                0 <= k < r.len() ==> character_char(#[trigger] r[k]) == star_wars.chars[self.0.friends[k] as int]
                    && (r[k] is Human <==> star_wars.chars[self.0.friends[k] as int].is_human),
    {
        friends_of(star_wars, self.0)
    }

    /// Which movies they appear in.
    pub fn appears_in(&self) -> (r: &[Episode])
        ensures
            r@ == self.0.appears_in@,
    {
        self.0.appears_in.as_slice()
    }

    /// The home planet of the human, or nothing if unknown.
    pub fn home_planet(&self) -> (r: &Option<String>)
        ensures
            *r == self.0.home_planet,
    {
        &self.0.home_planet
    }
}

impl<'a> Droid<'a> {
    /// The id of the droid.
    pub fn id(&self) -> (r: &str)
        ensures
            r@ == self.0.id@,
    {
        self.0.id.as_str()
    }

    /// The name of the droid.
    pub fn name(&self) -> (r: &str)
        ensures
            r@ == self.0.name@,
    {
        self.0.name.as_str()
    }

    /// The friends of the droid, or an empty list if they have none.
    pub fn friends<'b>(&self, star_wars: &'b StarWars) -> (r: Vec<Character<'b>>)
        requires
            forall|k: int| 0 <= k < self.0.friends.len() ==> #[trigger] self.0.friends[k] < star_wars.chars.len(),
        ensures
            r.len() == self.0.friends.len(),
            forall|k: int|
                0 <= k < r.len() ==> character_char(#[trigger] r[k]) == star_wars.chars[self.0.friends[k] as int]
                    && (r[k] is Human <==> star_wars.chars[self.0.friends[k] as int].is_human),
    {
        friends_of(star_wars, self.0)
    }

    /// Which movies they appear in.
    pub fn appears_in(&self) -> (r: &[Episode])
        ensures
            r@ == self.0.appears_in@,
    {
        self.0.appears_in.as_slice()
    }

    /// The primary function of the droid.
    pub fn primary_function(&self) -> (r: &Option<String>)
        ensures
            *r == self.0.primary_function,
    {
        &self.0.primary_function
    }
}

/// One item of a page, with its position in the list as cursor.
#[derive(Debug)]
pub struct Edge<T> {
    pub cursor: usize,
    pub node: T,
}

/// A page of a list.
#[derive(Debug)]
pub struct Connection<T> {
    pub has_previous_page: bool,
    pub has_next_page: bool,
    pub edges: Vec<Edge<T>>,
}

/// The root of the query schema.
pub struct QueryRoot;

/// Whether `page` shows the humans of window `p` (as `spec_page` gives it)
/// of `items`, each with its position as cursor.
pub open spec fn shows_humans<'a>(page: Connection<Human<'a>>, p: (int, int, bool, bool), items: Seq<StarWarsChar>) -> bool {
    &&& page.has_previous_page == p.2
    &&& page.has_next_page == p.3
    &&& page.edges.len() == p.1 - p.0
    &&& forall|i: int|
        0 <= i < page.edges.len() ==> (#[trigger] page.edges[i]).cursor == p.0 + i
            && *page.edges[i].node.0 == items[p.0 + i]
}

/// Whether `page` shows the droids of window `p` (as `spec_page` gives it)
/// of `items`, each with its position as cursor.
pub open spec fn shows_droids<'a>(page: Connection<Droid<'a>>, p: (int, int, bool, bool), items: Seq<StarWarsChar>) -> bool {
    &&& page.has_previous_page == p.2
    &&& page.has_next_page == p.3
    &&& page.edges.len() == p.1 - p.0
    &&& forall|i: int|
        0 <= i < page.edges.len() ==> (#[trigger] page.edges[i]).cursor == p.0 + i
            && *page.edges[i].node.0 == items[p.0 + i]
}

/// The character a human stands for.
pub open spec fn human_char<'a>(h: Human<'a>) -> StarWarsChar {
    *h.0
}

/// The character a droid stands for.
pub open spec fn droid_char<'a>(d: Droid<'a>) -> StarWarsChar {
    *d.0
}

impl QueryRoot {
    /// The hero of the given episode: Luke for The Empire Strikes Back and for
    /// the saga as a whole, R2-D2 for the other films.
    pub fn hero<'a>(&self, star_wars: &'a StarWars, episode: Option<Episode>) -> (r: Character<'a>)
        requires
            star_wars.well_formed(),
        ensures
            (episode is None || episode == Some(Episode::Empire)) ==> r is Human
                && character_char(r) == star_wars.chars[star_wars.luke as int],
            !(episode is None || episode == Some(Episode::Empire)) ==> r is Droid
                && character_char(r) == star_wars.chars[star_wars.artoo as int],
    {
        match episode {
            Some(episode_name) => {
                if episode_name == Episode::Empire {
                    Character::Human(Human(&star_wars.chars[star_wars.luke]))
                } else {
                    Character::Droid(Droid(&star_wars.chars[star_wars.artoo]))
                }
            },
            None => Character::Human(Human(&star_wars.chars[star_wars.luke])),
        }
    }

    /// The human with the given id.
    pub fn human<'a>(&self, star_wars: &'a StarWars, id: &String) -> (r: Option<Human<'a>>)
        requires
            star_wars.well_formed(),
        ensures
            r is Some <==> exists|i: int| 0 <= i < star_wars.chars.len() && #[trigger] star_wars.chars[i].id@ == id@ && star_wars.chars[i].is_human,
            r matches Some(h) ==> h.0.id@ == id@ && h.0.is_human && exists|i: int| 0 <= i < star_wars.chars.len() && *h.0 == #[trigger] star_wars.chars[i],
    {
        match star_wars.human(id) {
            Some(c) => Some(Human(c)),
            None => None,
        }
    }

    /// The droid with the given id.
    pub fn droid<'a>(&self, star_wars: &'a StarWars, id: &String) -> (r: Option<Droid<'a>>)
        requires
            star_wars.well_formed(),
        ensures
            r is Some <==> exists|i: int| 0 <= i < star_wars.chars.len() && #[trigger] star_wars.chars[i].id@ == id@ && !star_wars.chars[i].is_human,
            r matches Some(d) ==> d.0.id@ == id@ && !d.0.is_human && exists|i: int| 0 <= i < star_wars.chars.len() && *d.0 == #[trigger] star_wars.chars[i],
    {
        match star_wars.droid(id) {
            Some(c) => Some(Droid(c)),
            None => None,
        }
    }

    /// A page of the humans; the cursors are positions in the list of humans.
    pub fn humans<'a>(
        &self,
        star_wars: &'a StarWars,
        after: Option<usize>,
        before: Option<usize>,
        first: Option<usize>,
        last: Option<usize>,
    ) -> (r: Connection<Human<'a>>)
        requires
            page_in_bounds(after, before, star_wars.spec_humans().len() as int),
        ensures
            shows_humans(r, spec_page(after, before, first, last, star_wars.spec_humans().len() as int), star_wars.spec_humans()),
    {
        let humans = star_wars.humans();
        proof {
            assert(deref_chars(humans@).len() == humans@.len());
        }
        let w = page_window(after, before, first, last, humans.len());
        let mut edges: Vec<Edge<Human<'a>>> = Vec::new();
        let mut i: usize = w.from;
        while i < w.to
            invariant
                w.from <= i <= w.to <= humans.len(),
                edges.len() == i - w.from,
                deref_chars(humans@) == star_wars.spec_humans(),
                forall|j: int|
                    0 <= j < edges.len() ==> (#[trigger] edges[j]).cursor == w.from + j
                        && human_char(edges[j].node) == star_wars.spec_humans()[w.from + j],
            decreases w.to - i,
        {
            edges.push(Edge { cursor: i, node: Human(humans[i]) });
            i = i + 1;
        }
        let r = Connection { has_previous_page: w.has_previous_page, has_next_page: w.has_next_page, edges };
        r
    }

    /// A page of the droids; the cursors are positions in the list of droids.
    pub fn droids<'a>(
        &self,
        star_wars: &'a StarWars,
        after: Option<usize>,
        before: Option<usize>,
        first: Option<usize>,
        last: Option<usize>,
    ) -> (r: Connection<Droid<'a>>)
        requires
            page_in_bounds(after, before, star_wars.spec_droids().len() as int),
        ensures
            shows_droids(r, spec_page(after, before, first, last, star_wars.spec_droids().len() as int), star_wars.spec_droids()),
    {
        let droids = star_wars.droids();
        proof {
            assert(deref_chars(droids@).len() == droids@.len());
        }
        let w = page_window(after, before, first, last, droids.len());
        let mut edges: Vec<Edge<Droid<'a>>> = Vec::new();
        let mut i: usize = w.from;
        while i < w.to
            invariant
                w.from <= i <= w.to <= droids.len(),
                edges.len() == i - w.from,
                deref_chars(droids@) == star_wars.spec_droids(),
                forall|j: int|
                    0 <= j < edges.len() ==> (#[trigger] edges[j]).cursor == w.from + j
                        && droid_char(edges[j].node) == star_wars.spec_droids()[w.from + j],
            decreases w.to - i,
        {
            edges.push(Edge { cursor: i, node: Droid(droids[i]) });
            i = i + 1;
        }
        let r = Connection { has_previous_page: w.has_previous_page, has_next_page: w.has_next_page, edges };
        r
    }
}

/// A page never reaches outside the list: its items lie between positions 0
/// and `n`.
pub proof fn lemma_page_within_list(
    after: Option<usize>,
    before: Option<usize>,
    first: Option<usize>,
    last: Option<usize>,
    n: int,
)
    requires
        0 <= n,
        page_in_bounds(after, before, n),
    ensures
        0 <= spec_page(after, before, first, last, n).0 <= spec_page(after, before, first, last, n).1 <= n,
{
}

/// A page reports previous items exactly when it does not start at the
/// beginning of the list.
pub proof fn lemma_page_has_previous(
    after: Option<usize>,
    before: Option<usize>,
    first: Option<usize>,
    last: Option<usize>,
    n: int,
)
    requires
        0 <= n,
        page_in_bounds(after, before, n),
    ensures
        spec_page(after, before, first, last, n).2 == (spec_page(after, before, first, last, n).0 > 0),
{
}

/// Without `first`, a page whose cursors lie within the list reports next
/// items exactly when it stops before the end of the list.
pub proof fn lemma_page_has_next(
    after: Option<usize>,
    before: Option<usize>,
    last: Option<usize>,
    n: int,
)
    requires
        0 <= n,
        page_in_bounds(after, before, n),
        !(after matches Some(a) && a >= n),
        before != Some(0usize),
    ensures
        spec_page(after, before, None, last, n).3 == (spec_page(after, before, None, last, n).1 < n),
{
}

/// `first: f` alone shows the first `f` items (all of them when there are
/// fewer).
pub proof fn lemma_first_items(f: usize, n: int)
    requires
        0 <= n,
    ensures
        spec_page(None, None, Some(f), None, n).0 == 0,
        spec_page(None, None, Some(f), None, n).1 == min(f as int, n),
{
}

/// `last: l` alone shows the last `l` items (all of them when there are
/// fewer).
pub proof fn lemma_last_items(l: usize, n: int)
    requires
        0 <= n,
    ensures
        spec_page(None, None, None, Some(l), n).0 == n - min(l as int, n),
        spec_page(None, None, None, Some(l), n).1 == n,
{
}

/// `after: a` alone shows every item after position `a`, or nothing when `a`
/// is not a position of the list.
pub proof fn lemma_after_cursor(a: usize, n: int)
    requires
        0 <= n,
    ensures
        a < n ==> spec_page(Some(a), None, None, None, n).0 == a + 1 && spec_page(Some(a), None, None, None, n).1 == n,
        a >= n ==> spec_page(Some(a), None, None, None, n) == (0int, 0int, false, false),
{
}

/// `before: b` alone shows every item before position `b`, or nothing when
/// `b` is 0.
pub proof fn lemma_before_cursor(b: usize, n: int)
    requires
        0 <= n,
        b <= n,
    ensures
        spec_page(None, Some(b), None, None, n).0 == 0,
        spec_page(None, Some(b), None, None, n).1 == b,
{
}

/// The next page forward: after cursor `a` with `first: f`, the page shows
/// the up to `f` items that follow the cursor, starting with the one just
/// after it; there are items before it, and more items are reported exactly
/// when the page is not empty.
pub proof fn lemma_after_then_first(a: usize, f: usize, n: int)
    requires
        a < n,
    ensures
        spec_page(Some(a), None, Some(f), None, n).0 == a + 1,
        spec_page(Some(a), None, Some(f), None, n).1 == a + 1 + min(f as int, n - a - 1),
        spec_page(Some(a), None, Some(f), None, n).2,
        spec_page(Some(a), None, Some(f), None, n).3 == (min(f as int, n - a - 1) > 0),
{
}

/// A page keeps to its cursors and its size: unless a `before` cursor of 0
/// empties it, it starts after the `after` cursor, ends at or before the `before` cursor, and holds at most `first`
/// items (or, without `first`, at most `last`). With `first`, the page starts
/// right after the `after` cursor (or at the start of the list); with `last`
/// alone, it ends right at the `before` cursor (or at the end of the list).
pub proof fn lemma_page_respects_cursors(
    after: Option<usize>,
    before: Option<usize>,
    first: Option<usize>,
    last: Option<usize>,
    n: int,
)
    requires
        0 <= n,
        page_in_bounds(after, before, n),
    ensures
        match after {
            Some(a) => a < n && before != Some(0usize) ==> spec_page(after, before, first, last, n).0 >= a + 1,
            None => true,
        },
        match before {
            Some(b) => spec_page(after, before, first, last, n).1 <= b,
            None => true,
        },
        match first {
            Some(f) => spec_page(after, before, first, last, n).1 - spec_page(after, before, first, last, n).0 <= f,
            None => true,
        },
        match (first, last) {
            (None, Some(l)) => spec_page(after, before, first, last, n).1 - spec_page(after, before, first, last, n).0 <= l,
            _ => true,
        },
        (first is Some && !(after matches Some(a) && a >= n) && before != Some(0usize)) ==> spec_page(after, before, first, last, n).0 == match after {
            Some(a) => a + 1,
            None => 0,
        },
        (first is None && last is Some && !(after matches Some(a) && a >= n) && before != Some(0usize)) ==> spec_page(after, before, first, last, n).1 == match before {
            Some(b) => b as int,
            None => n,
        },
{
}

/// Every character is a human or a droid and not both: the humans and the
/// droids together are as many as the characters.
pub proof fn lemma_humans_and_droids_partition(star_wars: StarWars)
    ensures
        star_wars.spec_humans().len() + star_wars.spec_droids().len() == star_wars.chars@.len(),
{
    lemma_filters_partition(star_wars.chars@);
}

/// Splitting a list of characters by kind keeps every character once.
proof fn lemma_filters_partition(chars: Seq<StarWarsChar>)
    ensures
        chars.filter(human_pred()).len() + chars.filter(droid_pred()).len() == chars.len(),
    decreases chars.len(),
{
    reveal_with_fuel(Seq::filter, 1);
    if chars.len() > 0 {
        lemma_filters_partition(chars.drop_last());
    }
}

} // verus!
