//! Room loading: the resource path of a room, and a cache of loaded room
//! resources. The resource type is the host's; loading and instantiating are
//! the host's work, handed in as closures.
use vstd::prelude::*;
use vstd::string::*;

use std::collections::HashMap;

use crate::geometry::RoomId;

verus! {

broadcast use vstd::std_specs::hash::group_hash_axioms;

/// The character of decimal digit `d`.
pub open spec fn digit_char(d: nat) -> char {
    if d == 0 {
        '0'
    } else if d == 1 {
        '1'
    } else if d == 2 {
        '2'
    } else if d == 3 {
        '3'
    } else if d == 4 {
        '4'
    } else if d == 5 {
        '5'
    } else if d == 6 {
        '6'
    } else if d == 7 {
        '7'
    } else if d == 8 {
        '8'
    } else {
        '9'
    }
}

/// The decimal digits of `n`, most significant first, without leading zeros.
pub open spec fn digits_of(n: nat) -> Seq<char>
    decreases n,
{
    if n < 10 {
        seq![digit_char(n)]
    } else {
        digits_of(n / 10) + seq![digit_char(n % 10)]
    }
}

/// `v` written in decimal, with a leading `-` when negative.
pub open spec fn decimal_of(v: int) -> Seq<char> {
    if v < 0 {
        seq!['-'] + digits_of((-v) as nat)
    } else {
        digits_of(v as nat)
    }
}

/// Whether `s` starts with `{`, `c`, `}`.
pub open spec fn starts_with_placeholder(s: Seq<char>, c: char) -> bool {
    s.len() >= 3 && s[0] == '{' && s[1] == c && s[2] == '}'
}

/// `pattern` with each `{x}` replaced by `x` and each `{y}` by `y`, in decimal.
pub open spec fn substitute(pattern: Seq<char>, x: int, y: int) -> Seq<char>
    decreases pattern.len(),
{
    if pattern.len() == 0 {
        seq![]
    } else if starts_with_placeholder(pattern, 'x') {
        decimal_of(x) + substitute(pattern.skip(3), x, y)
    } else if starts_with_placeholder(pattern, 'y') {
        decimal_of(y) + substitute(pattern.skip(3), x, y)
    } else {
        seq![pattern[0]] + substitute(pattern.skip(1), x, y)
    }
}

fn digit_to_char(d: u64) -> (c: char)
    requires
        d < 10,
    ensures
        c == digit_char(d as nat),
{
    if d == 0 {
        '0'
    } else if d == 1 {
        '1'
    } else if d == 2 {
        '2'
    } else if d == 3 {
        '3'
    } else if d == 4 {
        '4'
    } else if d == 5 {
        '5'
    } else if d == 6 {
        '6'
    } else if d == 7 {
        '7'
    } else if d == 8 {
        '8'
    } else {
        '9'
    }
}

fn push_digits(out: &mut Vec<char>, n: u64)
    ensures
        final(out)@ == old(out)@ + digits_of(n as nat),
    decreases n,
{
    if n >= 10 {
        push_digits(out, n / 10);
    }
    out.push(digit_to_char(n % 10));
    proof {
        if n < 10 {
            assert(old(out)@ + digits_of(n as nat) =~= old(out)@.push(digit_char(n as nat)));
        } else {
            assert(old(out)@ + digits_of(n as nat) =~= (old(out)@ + digits_of((n / 10) as nat)).push(
                digit_char((n % 10) as nat),
            ));
        }
    }
}

fn push_decimal(out: &mut Vec<char>, v: i32)
    ensures
        final(out)@ == old(out)@ + decimal_of(v as int),
{
    if v < 0 {
        out.push('-');
        let magnitude = (0i64 - v as i64) as u64;
        push_digits(out, magnitude);
        proof {
            assert(old(out)@ + decimal_of(v as int) =~= old(out)@.push('-') + digits_of(
                magnitude as nat,
            ));
        }
    } else {
        push_digits(out, v as u64);
    }
}

/// Relies on std's `FromIterator<char>` for `String`: the string holds the
/// given characters in order.
#[verifier::external_body]
fn string_from_chars(chars: &Vec<char>) -> (r: String)
    ensures
        r@ == chars@,
{
    chars.iter().collect()
}

/// The resource path of room `coords`: `pattern` with `{x}` and `{y}`
/// replaced by the room's grid coordinates.
pub fn scene_path_for(pattern: &String, coords: RoomId) -> (r: String)
    ensures
        r@ == substitute(pattern@, coords.0 as int, coords.1 as int),
{
    let text = pattern.as_str();
    let n = text.unicode_len();
    let ghost x = coords.0 as int;
    let ghost y = coords.1 as int;
    let mut out: Vec<char> = Vec::new();
    let mut i: usize = 0;
    proof {
        assert(text@.skip(0) =~= text@);
    }
    while i < n
        invariant
            n == text@.len(),
            text@ == pattern@,
            x == coords.0 as int,
            y == coords.1 as int,
            0 <= i <= n,
            out@ + substitute(text@.skip(i as int), x, y) == substitute(text@, x, y),
        decreases n - i,
    {
        let ghost rest = text@.skip(i as int);
        let c = text.get_char(i);
        proof {
            assert(rest.len() == n - i);
            assert(rest[0] == text@[i as int]);
            if n - i > 2 {
                assert(rest[1] == text@[i + 1]);
                assert(rest[2] == text@[i + 2]);
            }
        }
        if c == '{' && n - i > 2 && text.get_char(i + 2) == '}' && (text.get_char(i + 1) == 'x'
            || text.get_char(i + 1) == 'y') {
            let ghost before = out@;
            let name = text.get_char(i + 1);
            let v = if name == 'x' {
                coords.0
            } else {
                coords.1
            };
            push_decimal(&mut out, v);
            proof {
                assert(rest.skip(3) =~= text@.skip(i + 3));
                assert(rest[1] == 'x' || rest[1] == 'y');
                if rest[1] == 'x' {
                    assert(starts_with_placeholder(rest, 'x'));
                    assert(v as int == x);
                } else {
                    assert(!starts_with_placeholder(rest, 'x'));
                    assert(starts_with_placeholder(rest, 'y'));
                    assert(v as int == y);
                }
                assert(substitute(rest, x, y) == decimal_of(v as int) + substitute(rest.skip(3), x, y));
                assert(before + decimal_of(v as int) + substitute(rest.skip(3), x, y) =~= before + (
                decimal_of(v as int) + substitute(rest.skip(3), x, y)));
            }
            i = i + 3;
        } else {
            let ghost before = out@;
            out.push(c);
            proof {
                assert(rest.skip(1) =~= text@.skip(i + 1));
                assert(rest[0] == c);
                assert(!starts_with_placeholder(rest, 'x') && !starts_with_placeholder(rest, 'y'));
                assert(substitute(rest, x, y) == seq![c] + substitute(rest.skip(1), x, y));
                assert(before.push(c) + substitute(rest.skip(1), x, y) =~= before + (seq![c]
                    + substitute(rest.skip(1), x, y)));
            }
            i = i + 1;
        }
    }
    proof {
        assert(text@.skip(i as int) =~= Seq::<char>::empty());
        assert(out@ + Seq::<char>::empty() =~= out@);
    }
    string_from_chars(&out)
}

/// The cache key of a room: both coordinates packed into one integer.
pub open spec fn room_key(room: RoomId) -> int {
    room.0 as int * 0x1_0000_0000 + (room.1 as int + 0x8000_0000)
}

proof fn lemma_room_key_injective(a: RoomId, b: RoomId)
    ensures
        room_key(a) == room_key(b) ==> a == b,
{
    let (ax, ay) = (a.0 as int, a.1 as int + 0x8000_0000);
    let (bx, by) = (b.0 as int, b.1 as int + 0x8000_0000);
    if ax < bx {
        assert(ax * 0x1_0000_0000 + ay < bx * 0x1_0000_0000 + by) by (nonlinear_arith)
            requires
                ax < bx,
                0 <= ay < 0x1_0000_0000,
                0 <= by < 0x1_0000_0000,
        ;
    } else if bx < ax {
        assert(bx * 0x1_0000_0000 + by < ax * 0x1_0000_0000 + ay) by (nonlinear_arith)
            requires
                bx < ax,
                0 <= ay < 0x1_0000_0000,
                0 <= by < 0x1_0000_0000,
        ;
    }
}

fn key_of(room: RoomId) -> (r: i64)
    ensures
        r == room_key(room),
{
    let x = room.0 as i64;
    proof {
        assert(-0x8000_0000_0000_0000 <= x * 0x1_0000_0000 <= 0x7fff_ffff_0000_0000) by (
        nonlinear_arith)
            requires
                -0x8000_0000 <= x <= 0x7fff_ffff,
        ;
    }
    x * 0x1_0000_0000 + (room.1 as i64 + 0x8000_0000)
}

/// `Some` clone of `scene`.
pub open spec fn is_clone_of<R: Clone>(r: Option<R>, scene: R) -> bool {
    match r {
        Some(c) => cloned(scene, c),
        None => false,
    }
}

/// Loads room resources by grid coordinate and caches them for the rest of
/// the process; failed loads are not cached.
pub struct RoomLoader<R> {
    scene_cache: HashMap<i64, R>,
    scene_path_pattern: String,
}

impl<R> View for RoomLoader<R> {
    type V = Map<RoomId, R>;

    closed spec fn view(&self) -> Map<RoomId, R> {
        Map::new(
            |room: RoomId| self.scene_cache@.contains_key(room_key(room) as i64),
            |room: RoomId| self.scene_cache@[room_key(room) as i64],
        )
    }
}

impl<R: Clone> RoomLoader<R> {
    /// The path pattern, with `{x}` and `{y}` for the room's coordinates.
    pub closed spec fn pattern(&self) -> Seq<char> {
        self.scene_path_pattern@
    }

    /// The resource path of room `coords`.
    pub open spec fn path_of(&self, coords: RoomId) -> Seq<char> {
        substitute(self.pattern(), coords.0 as int, coords.1 as int)
    }

    /// Whether the cache changed as a load of `coords` that went to `load`
    /// allows: unchanged when it failed, else holding what it loaded.
    pub open spec fn load_answered<F: FnOnce(String) -> Option<R>>(
        old_cache: Map<RoomId, R>,
        new_cache: Map<RoomId, R>,
        coords: RoomId,
        path: Seq<char>,
        load: F,
    ) -> bool {
        exists|p: String, loaded: Option<R>|
            #![trigger call_ensures(load, (p,), loaded)]
            p@ == path && call_ensures(load, (p,), loaded) && match loaded {
                None => new_cache == old_cache,
                Some(scene) => new_cache == old_cache.insert(coords, scene),
            }
    }

    /// A loader with an empty cache.
    pub fn new(scene_path_pattern: String) -> (r: Self)
        ensures
            r@ == Map::<RoomId, R>::empty(),
            r.pattern() == scene_path_pattern@,
    {
        let r = RoomLoader { scene_cache: HashMap::new(), scene_path_pattern };
        proof {
            assert(r@ =~= Map::<RoomId, R>::empty());
        }
        r
    }

    /// The path pattern this loader was made with.
    pub fn scene_path_pattern(&self) -> (r: &String)
        ensures
            r@ == self.pattern(),
    {
        &self.scene_path_pattern
    }

    /// The resource path of room `coords`.
    pub fn scene_path(&self, coords: RoomId) -> (r: String)
        ensures
            r@ == self.path_of(coords),
    {
        scene_path_for(&self.scene_path_pattern, coords)
    }

    /// The cached resource of room `coords`, if it has been loaded.
    pub fn cached_scene(&self, coords: RoomId) -> (r: Option<&R>)
        ensures
            r is None <==> !self@.contains_key(coords),
            r matches Some(scene) ==> *scene == self@[coords],
    {
        let key = key_of(coords);
        self.scene_cache.get(&key)
    }

    /// Remember the resource of room `coords`.
    pub fn cache_scene(&mut self, coords: RoomId, scene: R)
        ensures
            final(self)@ == old(self)@.insert(coords, scene),
            final(self).pattern() == old(self).pattern(),
    {
        let key = key_of(coords);
        self.scene_cache.insert(key, scene);
        proof {
            assert forall|room: RoomId| #[trigger] self@.contains_key(room) == old(self)@.insert(coords, scene).contains_key(room)
                && (self@.contains_key(room) ==> self@[room] == old(self)@.insert(coords, scene)[room]) by {
                lemma_room_key_injective(room, coords);
            }
            assert(self@ =~= old(self)@.insert(coords, scene));
        }
    }

    /// Load the resource of room `coords`: from the cache, or else by handing
    /// its path to `load`, caching what comes back. A failed load is not
    /// cached, so the next request tries again.
    pub fn load_room_scene<F: FnOnce(String) -> Option<R>>(&mut self, coords: RoomId, load: F) -> (r:
        Option<R>)
        requires
            forall|p: String| call_requires(load, (p,)),
        ensures
            final(self).pattern() == old(self).pattern(),
            old(self)@.contains_key(coords) ==> final(self)@ == old(self)@ && is_clone_of(
                r,
                old(self)@[coords],
            ),
            !old(self)@.contains_key(coords) ==> Self::load_answered(
                old(self)@,
                final(self)@,
                coords,
                old(self).path_of(coords),
                load,
            ),
            r is Some <==> final(self)@.contains_key(coords),
            r is Some ==> is_clone_of(r, final(self)@[coords]),
    {
        if let Some(scene) = self.cached_scene(coords) {
            return Some(scene.clone());
        }
        let path = self.scene_path(coords);
        let ghost p = path;
        let loaded = load(path);
        match loaded {
            Some(scene) => {
                let ghost s = scene;
                let copy = scene.clone();
                self.cache_scene(coords, scene);
                assert(call_ensures(load, (p,), Some(s)));
                Some(copy)
            },
            None => {
                assert(call_ensures(load, (p,), None::<R>));
                None
            },
        }
    }

    /// Whether room `coords` exists, that is, its resource loads; a load made
    /// to find out is cached as `load_room_scene` does.
    pub fn room_exists<F: FnOnce(String) -> Option<R>>(&mut self, coords: RoomId, load: F) -> (r: bool)
        requires
            forall|p: String| call_requires(load, (p,)),
        ensures
            final(self).pattern() == old(self).pattern(),
            old(self)@.contains_key(coords) ==> final(self)@ == old(self)@,
            !old(self)@.contains_key(coords) ==> Self::load_answered(
                old(self)@,
                final(self)@,
                coords,
                old(self).path_of(coords),
                load,
            ),
            r == final(self)@.contains_key(coords),
    {
        self.load_room_scene(coords, load).is_some()
    }

    /// Load room `coords` and instantiate a container from its resource with
    /// `instantiate`, which fails when the resource's root is not a room
    /// container.
    pub fn instantiate_room<C, F: FnOnce(String) -> Option<R>, G: FnOnce(R) -> Option<C>>(
        &mut self,
        coords: RoomId,
        load: F,
        instantiate: G,
    ) -> (r: Option<C>)
        requires
            forall|p: String| call_requires(load, (p,)),
            forall|scene: R| call_requires(instantiate, (scene,)),
        ensures
            final(self).pattern() == old(self).pattern(),
            old(self)@.contains_key(coords) ==> final(self)@ == old(self)@,
            !old(self)@.contains_key(coords) ==> Self::load_answered(
                old(self)@,
                final(self)@,
                coords,
                old(self).path_of(coords),
                load,
            ),
            !final(self)@.contains_key(coords) ==> r is None,
            final(self)@.contains_key(coords) ==> exists|scene: R|
                cloned(final(self)@[coords], scene) && #[trigger] call_ensures(
                    instantiate,
                    (scene,),
                    r,
                ),
    {
        match self.load_room_scene(coords, load) {
            Some(scene) => {
                let ghost s = scene;
                let r = instantiate(scene);
                assert(call_ensures(instantiate, (s,), r));
                r
            },
            None => None,
        }
    }
}

} // verus!
