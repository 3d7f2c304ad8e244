use vstd::prelude::*;
use vstd::string::StringExecFns;

use crate::paths::owned;
use crate::solid_tag::SolidTag;
use crate::components::{Harmful, PlayerAttack};
use crate::enemy::Flipped;
use crate::player::{spec_new_player, Player};
use crate::settings::SettingsPlayer;
use crate::text::str_eq;
use crate::json_doc::{as_bool, as_str, as_string, as_u32, as_usize, at, field, is_number, json_parse, json_parse_of, opt_node};
use crate::json_doc::{spec_as_bool, spec_as_str, spec_as_u32, spec_as_usize, spec_at, spec_elements, spec_field, spec_is_number, JsonNode};

verus! {

/// The kinds of object a level file places.
#[derive(Clone, Copy, Debug, PartialEq, Eq, Structural)]
pub enum ObjectKind {
    Player,
    Parallax,
    Enemy,
    Goal,
    Item,
}

/// The kind an object's `type` names; `None` for a type the loader skips.
pub open spec fn object_kind_of(name: Seq<char>) -> Option<ObjectKind> {
    if name == "Player"@ {
        Some(ObjectKind::Player)
    } else if name == "Parallax"@ {
        Some(ObjectKind::Parallax)
    } else if name == "Enemy"@ {
        Some(ObjectKind::Enemy)
    } else if name == "Goal"@ {
        Some(ObjectKind::Goal)
    } else if name == "Item"@ {
        Some(ObjectKind::Item)
    } else {
        None
    }
}

pub fn object_kind(name: &str) -> (res: Option<ObjectKind>)
    ensures
        res == object_kind_of(name@),
{
    if str_eq(name, "Player") {
        Some(ObjectKind::Player)
    } else if str_eq(name, "Parallax") {
        Some(ObjectKind::Parallax)
    } else if str_eq(name, "Enemy") {
        Some(ObjectKind::Enemy)
    } else if str_eq(name, "Goal") {
        Some(ObjectKind::Goal)
    } else if str_eq(name, "Item") {
        Some(ObjectKind::Item)
    } else {
        None
    }
}

/// An entry of a level file's `objects`, as far as the loader decides on
/// it: its `type` if that is a string, and whether its position (`x`, `y`)
/// and its size (`w`, `h`) are all numbers.
#[derive(Clone, Debug)]
pub struct LevelObject {
    pub obj_type: Option<String>,
    pub has_pos: bool,
    pub has_size: bool,
}

/// Whether the loader takes object `o` as one of kind `k`.
pub open spec fn taken_as(o: LevelObject, k: ObjectKind) -> bool {
    &&& o.has_pos
    &&& o.has_size
    &&& o.obj_type matches Some(t) && object_kind_of(t@) == Some(k)
}

/// The positions, in order, of the first `n` objects taken as kind `k`.
pub open spec fn indices_of(objs: Seq<LevelObject>, k: ObjectKind, n: nat) -> Seq<usize>
    decreases n,
{
    if n == 0 {
        Seq::empty()
    } else {
        let prev = indices_of(objs, k, (n - 1) as nat);
        if taken_as(objs[n - 1], k) {
            prev.push((n - 1) as usize)
        } else {
            prev
        }
    }
}

/// The position of the last of the first `n` objects taken as kind `k`:
/// a later one replaces an earlier one.
pub open spec fn last_of(objs: Seq<LevelObject>, k: ObjectKind, n: nat) -> Option<usize>
    decreases n,
{
    if n == 0 {
        None
    } else if taken_as(objs[n - 1], k) {
        Some((n - 1) as usize)
    } else {
        last_of(objs, k, (n - 1) as nat)
    }
}

/// Where the objects of a level file go, by their positions in the file:
/// the player and the goal (one each), and the parallax backgrounds,
/// enemies and items (in the file's order).
#[derive(Clone, Debug)]
pub struct LevelLayout {
    pub player: Option<usize>,
    pub parallax: Vec<usize>,
    pub enemies: Vec<usize>,
    pub goal: Option<usize>,
    pub items: Vec<usize>,
}

/// Sorts a level file's objects by kind, skipping those with no known type
/// or without a full position and size.
pub fn sort_objects(objects: &Vec<LevelObject>) -> (res: LevelLayout)
    ensures
        res.player == last_of(objects@, ObjectKind::Player, objects@.len()),
        res.goal == last_of(objects@, ObjectKind::Goal, objects@.len()),
        res.parallax@ == indices_of(objects@, ObjectKind::Parallax, objects@.len()),
        res.enemies@ == indices_of(objects@, ObjectKind::Enemy, objects@.len()),
        res.items@ == indices_of(objects@, ObjectKind::Item, objects@.len()),
{
    let mut layout = LevelLayout {
        player: None,
        parallax: Vec::new(),
        enemies: Vec::new(),
        goal: None,
        items: Vec::new(),
    };
    let mut i: usize = 0;
    while i < objects.len()
        invariant
            i <= objects@.len(),
            layout.player == last_of(objects@, ObjectKind::Player, i as nat),
            layout.goal == last_of(objects@, ObjectKind::Goal, i as nat),
            layout.parallax@ == indices_of(objects@, ObjectKind::Parallax, i as nat),
            layout.enemies@ == indices_of(objects@, ObjectKind::Enemy, i as nat),
            layout.items@ == indices_of(objects@, ObjectKind::Item, i as nat),
        decreases objects@.len() - i,
    {
        let o = &objects[i];
        if o.has_pos && o.has_size {
            if let Some(t) = &o.obj_type {
                match object_kind(t.as_str()) {
                    Some(ObjectKind::Player) => {
                        layout.player = Some(i);
                    },
                    Some(ObjectKind::Parallax) => {
                        layout.parallax.push(i);
                    },
                    Some(ObjectKind::Enemy) => {
                        layout.enemies.push(i);
                    },
                    Some(ObjectKind::Goal) => {
                        layout.goal = Some(i);
                    },
                    Some(ObjectKind::Item) => {
                        layout.items.push(i);
                    },
                    None => {},
                }
            }
        }
        i = i + 1;
    }
    layout
}

/// An entry of a level file's `tiles`, as far as the loader decides on it:
/// its sprite number `id` if that is a whole number, whether its position
/// is all numbers, and its tileset name `ts` if that is a string.
#[derive(Clone, Debug)]
pub struct LevelTile {
    pub id: Option<usize>,
    pub has_pos: bool,
    pub tileset: Option<String>,
}

/// The sprite sheet of a tileset, below the resources directory.
pub open spec fn spec_tileset_spritesheet(tileset: Seq<char>) -> Seq<char> {
    "spritesheets/"@ + tileset + ".png"@
}

pub fn tileset_spritesheet(tileset: &str) -> (res: String)
    ensures
        res@ == spec_tileset_spritesheet(tileset@),
{
    let mut s = owned("spritesheets/");
    s.append(tileset);
    s.append(".png");
    s
}

/// The sprite of a tile the loader takes, if it takes the tile.
pub open spec fn tile_sprite(t: LevelTile) -> Option<(usize, Seq<char>)> {
    match (t.id, t.tileset) {
        (Some(id), Some(ts)) => if t.has_pos {
            Some((id, spec_tileset_spritesheet(ts@)))
        } else {
            None
        },
        _ => None,
    }
}

/// The sprites, in order, of the tiles the loader takes among the first `n`.
pub open spec fn tile_sprites(tiles: Seq<LevelTile>, n: nat) -> Seq<(usize, Seq<char>)>
    decreases n,
{
    if n == 0 {
        Seq::empty()
    } else {
        let prev = tile_sprites(tiles, (n - 1) as nat);
        match tile_sprite(tiles[n - 1]) {
            Some(s) => prev.push(s),
            None => prev,
        }
    }
}

/// The sprite number and sprite sheet of each tile of a level file that has
/// all of a sprite number, a position and a tileset, in the file's order.
pub fn load_tiles(tiles: &Vec<LevelTile>) -> (res: Vec<(usize, String)>)
    ensures
        res@.map_values(|p: (usize, String)| (p.0, p.1@)) == tile_sprites(tiles@, tiles@.len()),
{
    let mut res: Vec<(usize, String)> = Vec::new();
    let mut i: usize = 0;
    while i < tiles.len()
        invariant
            i <= tiles@.len(),
            res@.map_values(|p: (usize, String)| (p.0, p.1@)) == tile_sprites(tiles@, i as nat),
        decreases tiles@.len() - i,
    {
        let t = &tiles[i];
        let ghost before = res@;
        if t.has_pos {
            if let (Some(id), Some(ts)) = (t.id, &t.tileset) {
                let path = tileset_spritesheet(ts.as_str());
                res.push((id, path));
                proof {
                    assert(res@.map_values(|p: (usize, String)| (p.0, p.1@)) =~= before.map_values(
                        |p: (usize, String)| (p.0, p.1@),
                    ).push((id, spec_tileset_spritesheet(ts@))));
                }
            }
        }
        i = i + 1;
    }
    res
}

/// What a tile's `solid` property makes it: solid with the default tag
/// exactly when the property is `true`.
pub fn tile_solid_tag(solid: Option<bool>) -> (res: Option<SolidTag>)
    ensures
        res == (if solid == Some(true) { Some(SolidTag::Default) } else { None::<SolidTag> }),
{
    match solid {
        Some(true) => Some(SolidTag::default()),
        _ => None,
    }
}

/// What a tile of a level file becomes besides its sprite: loaded and
/// unloaded with the camera unless its `always_loaded` property is `true`;
/// solid with the default tag when its `solid` property is `true`; harmful
/// with the damage of its `harmful` property when that is a whole number that
/// fits in a `u32`; and colliding when it is solid or harmful.
#[derive(Clone, Copy, Debug, PartialEq, Eq, Structural)]
pub struct TilePlan {
    pub loadable: bool,
    pub solid: Option<SolidTag>,
    pub harmful: Option<Harmful>,
    pub collides: bool,
}

/// The plan of a tile from its `always_loaded`, `solid` and `harmful`
/// properties, each as the level file gives it (a boolean, a boolean, a
/// whole number fitting in a `u32`), or `None` where it is missing or of
/// another kind.
pub fn tile_plan(always_loaded: Option<bool>, solid: Option<bool>, harmful: Option<u32>) -> (res: TilePlan)
    ensures
        res.loadable == (always_loaded != Some(true)),
        res.solid == (if solid == Some(true) { Some(SolidTag::Default) } else { None::<SolidTag> }),
        res.harmful == (match harmful {
            Some(h) => Some(Harmful { damage: h }),
            None => None::<Harmful>,
        }),
        res.collides == (solid == Some(true) || harmful is Some),
{
    let loadable = match always_loaded {
        Some(true) => false,
        _ => true,
    };
    let solid_tag = tile_solid_tag(solid);
    let harmful_component = match harmful {
        Some(h) => Some(Harmful::with_damage(h)),
        None => None,
    };
    TilePlan {
        loadable,
        solid: solid_tag,
        harmful: harmful_component,
        collides: solid_tag.is_some() || harmful_component.is_some(),
    }
}

/// What the player of a level file becomes: the player, placed where the
/// level puts it, with its sprite sheet, first sprite and animations, solid
/// with the player's tag, unmirrored and hurt by attacks; and beside it the
/// player's attack, an entity of its own with the same placement, which
/// starts inactive, hidden and unmirrored. `P` is the placement (position and
/// size) that the level file gives.
#[derive(Clone, Debug)]
pub struct PlayerPlan<P> {
    pub player: Player,
    pub placement: P,
    pub spritesheet_file: String,
    pub sprite_index: usize,
    pub animations_file: String,
    pub solid: SolidTag,
    pub flipped: Flipped,
    pub harmable: bool,
    pub attack: PlayerAttack,
    pub attack_placement: P,
    pub attack_sprite_index: usize,
    pub attack_animations_file: String,
    pub attack_flipped: Flipped,
    pub attack_hidden: bool,
}

/// The plan of the player and of its attack, for the player settings and the
/// placement the level file gives.
pub fn player_plan<P: Copy>(settings: SettingsPlayer, placement: P) -> (res: PlayerPlan<P>)
    ensures
        res.player == spec_new_player(settings),
        res.placement == placement,
        res.spritesheet_file@ == "player.png"@,
        res.sprite_index == 0,
        res.animations_file@ == "animations/player.ron"@,
        res.solid == SolidTag::Player,
        res.flipped == Flipped::Unflipped,
        res.harmable,
        res.attack == (PlayerAttack { active: false }),
        res.attack_placement == placement,
        res.attack_sprite_index == 0,
        res.attack_animations_file@ == "animations/player_attack.ron"@,
        res.attack_flipped == Flipped::Unflipped,
        res.attack_hidden,
{
    PlayerPlan {
        player: Player::new(settings),
        placement,
        spritesheet_file: owned("player.png"),
        sprite_index: 0,
        animations_file: owned("animations/player.ron"),
        solid: SolidTag::Player,
        flipped: Flipped::Unflipped,
        harmable: true,
        attack: PlayerAttack::default(),
        attack_placement: placement,
        attack_sprite_index: 0,
        attack_animations_file: owned("animations/player_attack.ron"),
        attack_flipped: Flipped::Unflipped,
        attack_hidden: true,
    }
}

/// An object of a level file as the loader decides on it: its type, whether
/// its position is all numbers, whether its size is all numbers.
pub open spec fn object_view(o: LevelObject) -> (Option<Seq<char>>, bool, bool) {
    (
        match o.obj_type {
            Some(t) => Some(t@),
            None => None,
        },
        o.has_pos,
        o.has_size,
    )
}

/// What the loader reads of an entry of a level file's `objects`: its `type`
/// if that is a string, whether `pos` has numbers `x` and `y`, and whether
/// `size` has numbers `w` and `h`.
pub open spec fn json_object_view(n: JsonNode) -> (Option<Seq<char>>, bool, bool) {
    let s = Some(n);
    (
        spec_as_str(spec_field(s, "type"@)),
        spec_is_number(spec_field(spec_field(s, "pos"@), "x"@)) && spec_is_number(spec_field(spec_field(s, "pos"@), "y"@)),
        spec_is_number(spec_field(spec_field(s, "size"@), "w"@)) && spec_is_number(spec_field(spec_field(s, "size"@), "h"@)),
    )
}

/// A tile of a level file as the loader decides on it.
pub open spec fn tile_view(t: LevelTile) -> (Option<usize>, bool, Option<Seq<char>>) {
    (
        t.id,
        t.has_pos,
        match t.tileset {
            Some(ts) => Some(ts@),
            None => None,
        },
    )
}

/// What the loader reads of an entry of a level file's `tiles`: its `id` if
/// that is a whole number that fits, whether `pos` has numbers `x` and `y`,
/// and its tileset `ts` if that is a string.
pub open spec fn json_tile_view(n: JsonNode) -> (Option<usize>, bool, Option<Seq<char>>) {
    let s = Some(n);
    (
        spec_as_usize(spec_field(s, "id"@)),
        spec_is_number(spec_field(spec_field(s, "pos"@), "x"@)) && spec_is_number(spec_field(spec_field(s, "pos"@), "y"@)),
        spec_as_str(spec_field(s, "ts"@)),
    )
}

/// The objects of a level document, as the loader reads them, in order.
pub open spec fn spec_level_objects(d: JsonNode) -> Seq<(Option<Seq<char>>, bool, bool)> {
    spec_elements(spec_field(Some(d), "objects"@)).map_values(|n: JsonNode| json_object_view(n))
}

/// The tiles of a level document, as the loader reads them, in order.
pub open spec fn spec_level_tiles(d: JsonNode) -> Seq<(Option<usize>, bool, Option<Seq<char>>)> {
    spec_elements(spec_field(Some(d), "tiles"@)).map_values(|n: JsonNode| json_tile_view(n))
}

fn object_from(n: &JsonNode) -> (res: LevelObject)
    ensures
        object_view(res) == json_object_view(*n),
{
    let s = Some(n);
    let pos = field(s, "pos");
    let size = field(s, "size");
    LevelObject {
        obj_type: as_string(field(s, "type")),
        has_pos: is_number(field(pos, "x")) && is_number(field(pos, "y")),
        has_size: is_number(field(size, "w")) && is_number(field(size, "h")),
    }
}

fn tile_from(n: &JsonNode) -> (res: LevelTile)
    ensures
        tile_view(res) == json_tile_view(*n),
{
    let s = Some(n);
    let pos = field(s, "pos");
    LevelTile {
        id: as_usize(field(s, "id")),
        has_pos: is_number(field(pos, "x")) && is_number(field(pos, "y")),
        tileset: as_string(field(s, "ts")),
    }
}

fn objects_from(doc: &JsonNode) -> (res: Vec<LevelObject>)
    ensures
        res@.map_values(|o: LevelObject| object_view(o)) == spec_level_objects(*doc),
{
    let mut res: Vec<LevelObject> = Vec::new();
    match field(Some(doc), "objects") {
        Some(JsonNode::Array(v)) => {
            let mut i: usize = 0;
            while i < v.len()
                invariant
                    i <= v@.len(),
                    spec_elements(spec_field(Some(*doc), "objects"@)) == v@,
                    res@.len() == i,
                    forall|j: int| 0 <= j < i ==> object_view(#[trigger] res@[j]) == json_object_view(v@[j]),
                decreases v@.len() - i,
            {
                res.push(object_from(&v[i]));
                i = i + 1;
            }
        },
        _ => {},
    }
    proof {
        assert(res@.map_values(|o: LevelObject| object_view(o)) =~= spec_level_objects(*doc));
    }
    res
}

fn tiles_from(doc: &JsonNode) -> (res: Vec<LevelTile>)
    ensures
        res@.map_values(|t: LevelTile| tile_view(t)) == spec_level_tiles(*doc),
{
    let mut res: Vec<LevelTile> = Vec::new();
    match field(Some(doc), "tiles") {
        Some(JsonNode::Array(v)) => {
            let mut i: usize = 0;
            while i < v.len()
                invariant
                    i <= v@.len(),
                    spec_elements(spec_field(Some(*doc), "tiles"@)) == v@,
                    res@.len() == i,
                    forall|j: int| 0 <= j < i ==> tile_view(#[trigger] res@[j]) == json_tile_view(v@[j]),
                decreases v@.len() - i,
            {
                res.push(tile_from(&v[i]));
                i = i + 1;
            }
        },
        _ => {},
    }
    proof {
        assert(res@.map_values(|t: LevelTile| tile_view(t)) =~= spec_level_tiles(*doc));
    }
    res
}

/// A level file read: the objects and tiles the loader decides on, and the
/// document they come from (for their properties).
#[derive(Debug)]
pub struct LevelFile {
    pub objects: Vec<LevelObject>,
    pub tiles: Vec<LevelTile>,
    pub document: JsonNode,
}

/// Reads a level file's text: fails exactly when the JSON library refuses
/// it; else gives its objects and tiles, in order, as the loader reads them.
pub fn level_from_text(text: &str) -> (res: Result<LevelFile, String>)
    ensures
        json_parse_of(text@) is None ==> res is Err,
        json_parse_of(text@) is Some ==> {
            let d = json_parse_of(text@)->0;
            &&& res is Ok
            &&& res->Ok_0.document == d
            &&& res->Ok_0.objects@.map_values(|o: LevelObject| object_view(o)) == spec_level_objects(d)
            &&& res->Ok_0.tiles@.map_values(|t: LevelTile| tile_view(t)) == spec_level_tiles(d)
        },
{
    match json_parse(text) {
        Ok(document) => {
            let objects = objects_from(&document);
            let tiles = tiles_from(&document);
            Ok(LevelFile { objects, tiles, document })
        },
        Err(e) => Err(e),
    }
}

/// A property of a level document's entry: of the `index`-th entry of the
/// section (`objects` or `tiles`), the member `key` of its `properties`.
pub open spec fn spec_property(doc: JsonNode, section: Seq<char>, index: int, key: Seq<char>) -> Option<JsonNode> {
    spec_field(spec_field(spec_at(spec_field(Some(doc), section), index), "properties"@), key)
}

/// A property of the `index`-th entry of a section of a level document.
pub fn property<'a>(doc: &'a JsonNode, section: &str, index: usize, key: &str) -> (res: Option<&'a JsonNode>)
    ensures
        opt_node(res) == spec_property(*doc, section@, index as int, key@),
{
    field(field(at(field(Some(doc), section), index), "properties"), key)
}

/// The plan of the `index`-th tile of a level document, from its
/// `always_loaded`, `solid` and `harmful` properties.
pub fn tile_plan_of(doc: &JsonNode, index: usize) -> (res: TilePlan)
    ensures
        res.loadable == (spec_as_bool(spec_property(*doc, "tiles"@, index as int, "always_loaded"@)) != Some(true)),
        res.solid == (if spec_as_bool(spec_property(*doc, "tiles"@, index as int, "solid"@)) == Some(true) {
            Some(SolidTag::Default)
        } else {
            None::<SolidTag>
        }),
        res.harmful == (match spec_as_u32(spec_property(*doc, "tiles"@, index as int, "harmful"@)) {
            Some(h) => Some(Harmful { damage: h }),
            None => None::<Harmful>,
        }),
        res.collides == (spec_as_bool(spec_property(*doc, "tiles"@, index as int, "solid"@)) == Some(true)
            || spec_as_u32(spec_property(*doc, "tiles"@, index as int, "harmful"@)) is Some),
{
    tile_plan(
        as_bool(property(doc, "tiles", index, "always_loaded")),
        as_bool(property(doc, "tiles", index, "solid")),
        as_u32(property(doc, "tiles", index, "harmful")),
    )
}

/// Whether a level is finished loading once it is built: the camera always
/// is, the player exactly when the level file places one.
pub fn loading_finished(layout: &LevelLayout) -> (res: bool)
    ensures
        res == layout.player is Some,
{
    layout.player.is_some()
}

/// The last object taken as a kind exists exactly when some object is taken
/// as that kind.
pub proof fn lemma_last_of_exists(objs: Seq<LevelObject>, k: ObjectKind, n: nat)
    requires
        n <= objs.len(),
    ensures
        last_of(objs, k, n) is Some <==> exists|i: int| 0 <= i < n && taken_as(#[trigger] objs[i], k),
    decreases n,
{
    if n > 0 {
        lemma_last_of_exists(objs, k, (n - 1) as nat);
        if exists|i: int| 0 <= i < n && taken_as(#[trigger] objs[i], k) {
            let i = choose|i: int| 0 <= i < n && taken_as(#[trigger] objs[i], k);
            if i < n - 1 {
                assert(0 <= i < n - 1 && taken_as(objs[i], k));
            }
        }
    }
}

/// Loading a level file is finished exactly when the file places a player:
/// an entry of its `objects` whose `type` is `"Player"` and whose position and
/// size are all numbers.
pub proof fn lemma_loading_finished_iff_player(objects: Seq<LevelObject>, d: JsonNode)
    requires
        objects.map_values(|o: LevelObject| object_view(o)) == spec_level_objects(d),
    ensures
        last_of(objects, ObjectKind::Player, objects.len()) is Some <==> exists|i: int|
            0 <= i < spec_elements(spec_field(Some(d), "objects"@)).len() && {
                let v = json_object_view(#[trigger] spec_elements(spec_field(Some(d), "objects"@))[i]);
                &&& v.0 == Some("Player"@)
                &&& v.1
                &&& v.2
            },
{
    let e = spec_elements(spec_field(Some(d), "objects"@));
    lemma_last_of_exists(objects, ObjectKind::Player, objects.len());
    assert(objects.len() == e.len()) by {
        assert(objects.map_values(|o: LevelObject| object_view(o)).len() == objects.len());
    }
    assert forall|i: int| 0 <= i < objects.len() implies taken_as(#[trigger] objects[i], ObjectKind::Player) == {
        let v = json_object_view(e[i]);
        &&& v.0 == Some("Player"@)
        &&& v.1
        &&& v.2
    } by {
        assert(objects.map_values(|o: LevelObject| object_view(o))[i] == object_view(objects[i]));
        assert(object_view(objects[i]) == json_object_view(e[i]));
        match objects[i].obj_type {
            Some(t) => {
                if object_kind_of(t@) == Some(ObjectKind::Player) {
                    assert(t@ == "Player"@);
                }
            },
            None => {},
        }
    }
    if exists|i: int| 0 <= i < e.len() && {
        let v = json_object_view(#[trigger] e[i]);
        &&& v.0 == Some("Player"@)
        &&& v.1
        &&& v.2
    } {
        let i = choose|i: int| 0 <= i < e.len() && {
            let v = json_object_view(#[trigger] e[i]);
            &&& v.0 == Some("Player"@)
            &&& v.1
            &&& v.2
        };
        assert(taken_as(objects[i], ObjectKind::Player));
    }
    if exists|i: int| 0 <= i < objects.len() && taken_as(#[trigger] objects[i], ObjectKind::Player) {
        let i = choose|i: int| 0 <= i < objects.len() && taken_as(#[trigger] objects[i], ObjectKind::Player);
        assert(json_object_view(e[i]).0 == Some("Player"@));
    }
}

/// How a parallax background is scaled to the camera: to fit inside it or
/// to cover it.
#[derive(Clone, Copy, Debug, PartialEq, Eq, Structural)]
pub enum ParallaxScale {
    Contain,
    Cover,
}

/// The decisions on a parallax background of a level file that are not
/// positions: its image (below the resources directory), whether its offset
/// is given by an `offset` property (else it is the object's corner), whether
/// it repeats along each axis (when either `repeat_x` or `repeat_y` is
/// given), and how it is scaled (when `scale` is given).
#[derive(Clone, Debug)]
pub struct ParallaxPlan {
    pub image: Option<String>,
    pub offset_given: bool,
    pub repeat: Option<(bool, bool)>,
    pub scale: Option<ParallaxScale>,
}

/// A property of the `index`-th object of a level document.
pub open spec fn object_property(doc: JsonNode, index: int, key: Seq<char>) -> Option<JsonNode> {
    spec_property(doc, "objects"@, index, key)
}

/// The properties of a parallax background are of the kinds the loader
/// needs: `image`, `offset` and `scale` are strings, `scale` is `contain`
/// or `cover`, and `repeat_x` and `repeat_y` are booleans (the loader stops
/// on any other).
pub open spec fn parallax_properties_valid(doc: JsonNode, index: int) -> bool {
    &&& object_property(doc, index, "image"@) is Some ==> spec_as_str(object_property(doc, index, "image"@)) is Some
    &&& object_property(doc, index, "offset"@) is Some ==> spec_as_str(object_property(doc, index, "offset"@)) is Some
    &&& object_property(doc, index, "repeat_x"@) is Some ==> spec_as_bool(object_property(doc, index, "repeat_x"@)) is Some
    &&& object_property(doc, index, "repeat_y"@) is Some ==> spec_as_bool(object_property(doc, index, "repeat_y"@)) is Some
    &&& object_property(doc, index, "scale"@) is Some ==> (spec_as_str(object_property(doc, index, "scale"@))
        == Some("contain"@) || spec_as_str(object_property(doc, index, "scale"@)) == Some("cover"@))
}

/// Whether the parallax background's properties are of the kinds the loader
/// needs.
pub fn parallax_valid(doc: &JsonNode, index: usize) -> (res: bool)
    ensures
        res == parallax_properties_valid(*doc, index as int),
{
    let image = property(doc, "objects", index, "image");
    let offset = property(doc, "objects", index, "offset");
    let repeat_x = property(doc, "objects", index, "repeat_x");
    let repeat_y = property(doc, "objects", index, "repeat_y");
    let scale = property(doc, "objects", index, "scale");
    let scale_ok = match scale {
        None => true,
        Some(_) => match as_str(scale) {
            Some(v) => str_eq(v, "contain") || str_eq(v, "cover"),
            None => false,
        },
    };
    (image.is_none() || as_str(image).is_some()) && (offset.is_none() || as_str(offset).is_some()) && (
    repeat_x.is_none() || as_bool(repeat_x).is_some()) && (repeat_y.is_none() || as_bool(repeat_y).is_some())
        && scale_ok
}

/// The plan of the parallax background that is the `index`-th object of a
/// level document.
pub fn parallax_plan_of(doc: &JsonNode, index: usize) -> (res: ParallaxPlan)
    requires
        parallax_properties_valid(*doc, index as int),
    ensures
        match res.image {
            Some(p) => spec_as_str(object_property(*doc, index as int, "image"@)) matches Some(n) && p@ == "textures/bg/"@
                + n,
            None => object_property(*doc, index as int, "image"@) is None,
        },
        res.offset_given == object_property(*doc, index as int, "offset"@) is Some,
        res.repeat == (if object_property(*doc, index as int, "repeat_x"@) is Some || object_property(
            *doc,
            index as int,
            "repeat_y"@,
        ) is Some {
            Some(
                (
                    spec_as_bool(object_property(*doc, index as int, "repeat_x"@)) == Some(true),
                    spec_as_bool(object_property(*doc, index as int, "repeat_y"@)) == Some(true),
                ),
            )
        } else {
            None::<(bool, bool)>
        }),
        res.scale == (if spec_as_str(object_property(*doc, index as int, "scale"@)) == Some("contain"@) {
            Some(ParallaxScale::Contain)
        } else if spec_as_str(object_property(*doc, index as int, "scale"@)) == Some("cover"@) {
            Some(ParallaxScale::Cover)
        } else {
            None::<ParallaxScale>
        }),
{
    let image = match as_str(property(doc, "objects", index, "image")) {
        Some(n) => {
            let mut p = owned("textures/bg/");
            p.append(n);
            Some(p)
        },
        None => None,
    };
    let repeat_x = property(doc, "objects", index, "repeat_x");
    let repeat_y = property(doc, "objects", index, "repeat_y");
    let repeat = if repeat_x.is_some() || repeat_y.is_some() {
        Some((as_bool(repeat_x) == Some(true), as_bool(repeat_y) == Some(true)))
    } else {
        None
    };
    let scale = match as_str(property(doc, "objects", index, "scale")) {
        Some(v) => if str_eq(v, "contain") {
            Some(ParallaxScale::Contain)
        } else if str_eq(v, "cover") {
            Some(ParallaxScale::Cover)
        } else {
            None
        },
        None => None,
    };
    ParallaxPlan {
        image,
        offset_given: property(doc, "objects", index, "offset").is_some(),
        repeat,
        scale,
    }
}

} // verus!
