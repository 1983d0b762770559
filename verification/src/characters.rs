//! What the editor knows of the engine's characters: the portrait and the
//! voice styles of each, and the menu from which a line's voice is chosen.

use std::collections::{BTreeMap, BTreeSet};
use vstd::prelude::*;
use vstd::utf8::encode_utf8;
use crate::api_schema::{MorphableTargetInfo, Speaker, SpeakerInfo, SpeakerStyle, StyleInfo};
use crate::views::seq_view;

verus! {

/// Whether `a` comes before `b` in the order of byte strings: at the first
/// place where they differ `a` has the smaller byte, or `a` ends there and
/// `b` goes on.
pub open spec fn bytes_before(a: Seq<u8>, b: Seq<u8>) -> bool
    decreases a.len(),
{
    if b.len() == 0 {
        false
    } else if a.len() == 0 {
        true
    } else if a[0] != b[0] {
        a[0] < b[0]
    } else {
        bytes_before(a.drop_first(), b.drop_first())
    }
}

/// Whether the text `a` comes before the text `b`: the order of their UTF-8
/// bytes, which is the order in which strings are sorted.
pub open spec fn text_before(a: Seq<char>, b: Seq<char>) -> bool {
    bytes_before(encode_utf8(a), encode_utf8(b))
}

/// Whether `a` comes before `b` in the order of byte strings.
pub fn is_bytes_before(a: &[u8], b: &[u8]) -> (r: bool)
    ensures
        r == bytes_before(a@, b@),
{
    let mut i: usize = 0;
    proof {
        assert(a@.skip(0) =~= a@);
        assert(b@.skip(0) =~= b@);
    }
    while i < a.len() && i < b.len()
        invariant
            i <= a.len(),
            i <= b.len(),
            bytes_before(a@, b@) == bytes_before(a@.skip(i as int), b@.skip(i as int)),
        decreases a.len() - i,
    {
        proof {
            assert(a@.skip(i as int)[0] == a@[i as int]);
            assert(b@.skip(i as int)[0] == b@[i as int]);
            assert(a@.skip(i as int).drop_first() =~= a@.skip(i + 1));
            assert(b@.skip(i as int).drop_first() =~= b@.skip(i + 1));
        }
        if a[i] != b[i] {
            return a[i] < b[i];
        }
        i += 1;
    }
    proof {
        if i < b.len() {
            assert(a@.skip(i as int).len() == 0);
        } else {
            assert(b@.skip(i as int).len() == 0);
        }
    }
    i < b.len()
}

/// Whether the text `a` comes before the text `b`.
pub fn is_text_before(a: &String, b: &String) -> (r: bool)
    ensures
        r == text_before(a@, b@),
{
    is_bytes_before(a.as_str().as_bytes(), b.as_str().as_bytes())
}

/// What the editor keeps of a character.
pub struct PortraitView {
    pub speaker_uuid: Seq<char>,
    pub portrait: Seq<u8>,
    pub name: Seq<char>,
    pub style_ids: Seq<i32>,
}

/// What the editor keeps of a character: its key, its portrait as an image
/// file, its name, and the numbers of its voice styles.
#[derive(Debug, Clone, PartialEq)]
pub struct Portrait {
    pub speaker_uuid: String,
    pub portrait: Vec<u8>,
    pub name: String,
    pub style_ids: Vec<i32>,
}

impl View for Portrait {
    type V = PortraitView;

    open spec fn view(&self) -> PortraitView {
        PortraitView {
            speaker_uuid: self.speaker_uuid@,
            portrait: self.portrait@,
            name: self.name@,
            style_ids: self.style_ids@,
        }
    }
}

/// What the editor keeps of a voice style.
pub struct StyleEntryView {
    pub speaker_uuid: Seq<char>,
    pub style_name: Seq<char>,
    pub icon: Seq<u8>,
}

/// What the editor keeps of a voice style: the key of its character, its
/// name, and its icon as an image file.
#[derive(Debug, Clone, PartialEq)]
pub struct StyleEntry {
    pub speaker_uuid: String,
    pub style_name: String,
    pub icon: Vec<u8>,
}

impl View for StyleEntry {
    type V = StyleEntryView;

    open spec fn view(&self) -> StyleEntryView {
        StyleEntryView {
            speaker_uuid: self.speaker_uuid@,
            style_name: self.style_name@,
            icon: self.icon@,
        }
    }
}

/// The characters with `entry` put in its place by key: going from the
/// front, before the first character whose key comes after the entry's, or in
/// place of the first character with the entry's key, whichever is met first;
/// last where neither is met.
pub open spec fn placed(characters: Seq<PortraitView>, entry: PortraitView) -> Seq<PortraitView>
    decreases characters.len(),
{
    if characters.len() == 0 {
        seq![entry]
    } else if text_before(entry.speaker_uuid, characters[0].speaker_uuid) {
        seq![entry] + characters
    } else if entry.speaker_uuid == characters[0].speaker_uuid {
        seq![entry] + characters.drop_first()
    } else {
        seq![characters[0]] + placed(characters.drop_first(), entry)
    }
}

/// Puts `entry` in its place by key: see [`placed`].
pub fn place(characters: &mut Vec<Portrait>, entry: Portrait)
    ensures
        seq_view(final(characters)@) == placed(seq_view(old(characters)@), entry@),
{
    let ghost all = seq_view(characters@);
    let mut i: usize = 0;
    assert(all.take(0) + placed(all.skip(0), entry@) =~= placed(all, entry@)) by {
        assert(all.skip(0) =~= all);
    }
    while i < characters.len()
        invariant
            i <= characters.len(),
            seq_view(characters@) == all,
            all == seq_view(old(characters)@),
            placed(all, entry@) == all.take(i as int) + placed(all.skip(i as int), entry@),
        decreases characters.len() - i,
    {
        let ghost rest = all.skip(i as int);
        proof {
            assert(rest[0] == all[i as int]);
            assert(rest.drop_first() =~= all.skip(i + 1));
            assert(all[i as int] == characters[i as int]@);
        }
        if is_text_before(&entry.speaker_uuid, &characters[i].speaker_uuid) {
            let ghost e = entry@;
            characters.insert(i, entry);
            proof {
                assert(placed(rest, e) == seq![e] + rest);
                assert(seq_view(characters@) =~= all.take(i as int) + (seq![e] + rest));
            }
            return ;
        } else if entry.speaker_uuid == characters[i].speaker_uuid {
            let ghost e = entry@;
            let mut entry = entry;
            core::mem::swap(&mut characters[i], &mut entry);
            proof {
                assert(placed(rest, e) == seq![e] + rest.drop_first());
                assert(seq_view(characters@) =~= all.take(i as int) + (seq![e] + rest.drop_first()));
            }
            return ;
        }
        proof {
            assert(all.take(i as int) + (seq![rest[0]] + placed(all.skip(i + 1), entry@))
                =~= all.take(i + 1) + placed(all.skip(i + 1), entry@));
        }
        i += 1;
    }
    proof {
        assert(all.skip(all.len() as int) =~= Seq::<PortraitView>::empty());
        assert(all.take(all.len() as int) =~= all);
        crate::views::lemma_seq_view_push(characters@, entry);
        assert(all + seq![entry@] =~= all.push(entry@));
    }
    characters.push(entry);
}

/// A copy of the bytes.
pub fn copy_bytes(bytes: &Vec<u8>) -> (r: Vec<u8>)
    ensures
        r@ == bytes@,
{
    let r = bytes.clone();
    assert(r@ =~= bytes@);
    r
}

/// The numbers of the voice styles, in order.
pub open spec fn style_ids(styles: Seq<SpeakerStyle>) -> Seq<i32> {
    Seq::new(styles.len(), |i: int| styles[i].id)
}

/// The numbers of the voice styles, in order.
pub fn ids_of(styles: &Vec<SpeakerStyle>) -> (r: Vec<i32>)
    ensures
        r@ == style_ids(styles@),
{
    let mut ids: Vec<i32> = Vec::new();
    let mut i: usize = 0;
    while i < styles.len()
        invariant
            i <= styles.len(),
            ids.len() == i,
            forall|j: int| 0 <= j < i ==> ids[j] == styles[j].id,
        decreases styles.len() - i,
    {
        ids.push(styles[i].id);
        i += 1;
    }
    assert(ids@ =~= style_ids(styles@));
    ids
}

/// What the editor keeps of a character, given who it is and its details:
/// the key, the portrait, the name, and the numbers of the styles.
pub fn portrait_of(speaker: &Speaker, info: &SpeakerInfo) -> (r: Portrait)
    ensures
        r@ == (PortraitView {
            speaker_uuid: speaker.speaker_uuid@,
            portrait: info.portrait@,
            name: speaker.name@,
            style_ids: style_ids(speaker.styles@),
        }),
{
    Portrait {
        speaker_uuid: speaker.speaker_uuid.clone(),
        portrait: copy_bytes(&info.portrait),
        name: speaker.name.clone(),
        style_ids: ids_of(&speaker.styles),
    }
}

/// The voice styles that the editor knows, by number.
pub type StyleTable = BTreeMap<i32, StyleEntry>;

/// What a table of voice styles holds.
pub open spec fn table_view(table: Map<i32, StyleEntry>) -> Map<i32, StyleEntryView> {
    table.map_values(|e: StyleEntry| e@)
}

/// The place of the first details with the given number of a style.
pub open spec fn first_with_id(infos: Seq<StyleInfo>, id: i32, i: int) -> bool {
    &&& 0 <= i < infos.len()
    &&& infos[i].id == id
    &&& forall|j: int| 0 <= j < i ==> infos[j].id != id
}

/// The first details with the given number of a style, if there are any.
pub fn find_style_info(infos: &Vec<StyleInfo>, id: i32) -> (r: Option<usize>)
    ensures
        match r {
            Some(i) => first_with_id(infos@, id, i as int),
            None => forall|j: int| 0 <= j < infos.len() ==> infos[j].id != id,
        },
{
    let mut i: usize = 0;
    while i < infos.len()
        invariant
            i <= infos.len(),
            forall|j: int| 0 <= j < i ==> infos[j].id != id,
        decreases infos.len() - i,
    {
        if infos[i].id == id {
            return Some(i);
        }
        i += 1;
    }
    None
}

/// The table after the styles of a character have been entered, in order:
/// each style whose number some details bear goes under that number, with
/// the key of the character, the name of the style, and the icon of the
/// first such details. A style without details is passed over. An entry
/// that was there under the number is replaced.
pub open spec fn styles_entered(
    table: Map<i32, StyleEntryView>,
    speaker_uuid: Seq<char>,
    styles: Seq<SpeakerStyle>,
    infos: Seq<StyleInfo>,
) -> Map<i32, StyleEntryView>
    decreases styles.len(),
{
    if styles.len() == 0 {
        table
    } else {
        let before = styles_entered(table, speaker_uuid, styles.drop_last(), infos);
        let style = styles.last();
        if exists|i: int| first_with_id(infos, style.id, i) {
            let i = choose|i: int| first_with_id(infos, style.id, i);
            before.insert(
                style.id,
                StyleEntryView { speaker_uuid, style_name: style.name@, icon: infos[i].icon@ },
            )
        } else {
            before
        }
    }
}

/// Enters the styles of a character into the table: see [`styles_entered`].
pub fn enter_styles(table: &mut StyleTable, speaker: &Speaker, info: &SpeakerInfo)
    ensures
        table_view(final(table)@) == styles_entered(
            table_view(old(table)@),
            speaker.speaker_uuid@,
            speaker.styles@,
            info.style_infos@,
        ),
{
    let ghost start = table_view(table@);
    let ghost uuid = speaker.speaker_uuid@;
    let ghost styles = speaker.styles@;
    let ghost infos = info.style_infos@;
    let mut k: usize = 0;
    assert(styles.take(0) =~= Seq::<SpeakerStyle>::empty());
    while k < speaker.styles.len()
        invariant
            k <= speaker.styles.len(),
            styles == speaker.styles@,
            infos == info.style_infos@,
            uuid == speaker.speaker_uuid@,
            table_view(table@) == styles_entered(start, uuid, styles.take(k as int), infos),
        decreases speaker.styles.len() - k,
    {
        let style = &speaker.styles[k];
        proof {
            assert(styles.take(k + 1).drop_last() =~= styles.take(k as int));
            assert(styles.take(k + 1).last() == styles[k as int]);
        }
        match find_style_info(&info.style_infos, style.id) {
            Some(i) => {
                let entry = StyleEntry {
                    speaker_uuid: speaker.speaker_uuid.clone(),
                    style_name: style.name.clone(),
                    icon: copy_bytes(&info.style_infos[i].icon),
                };
                let ghost before = table@;
                table.insert(style.id, entry);
                proof {
                    let j = choose|j: int| first_with_id(infos, style.id, j);
                    assert(first_with_id(infos, style.id, j));
                    if j < i {
                        assert(infos[j].id != style.id);
                    } else if i < j {
                        assert(infos[i as int].id != style.id);
                    }
                    assert(table_view(before.insert(style.id, entry)) =~= table_view(
                        before,
                    ).insert(style.id, entry@));
                }
            },
            None => {
                assert(!exists|i: int| first_with_id(infos, style.id, i));
            },
        }
        k += 1;
    }
    assert(styles.take(styles.len() as int) =~= styles);
}

/// What an entry of the submenu of a character is.
pub struct StyleOptionView {
    pub icon: Seq<u8>,
    pub style_name: Seq<char>,
    pub style_id: i32,
}

/// One entry of the submenu of a character: a voice style with its icon.
#[derive(Debug, Clone, PartialEq)]
pub struct StyleOption {
    pub icon: Vec<u8>,
    pub style_name: String,
    pub style_id: i32,
}

impl View for StyleOption {
    type V = StyleOptionView;

    open spec fn view(&self) -> StyleOptionView {
        StyleOptionView { icon: self.icon@, style_name: self.style_name@, style_id: self.style_id }
    }
}

/// What an entry of the menu of characters is.
pub struct CharacterOptionView {
    pub name: Seq<char>,
    pub styles: Seq<StyleOptionView>,
}

/// One entry of the menu of characters: a character with its voice styles.
#[derive(Debug, Clone, PartialEq)]
pub struct CharacterOption {
    pub name: String,
    pub styles: Vec<StyleOption>,
}

impl View for CharacterOption {
    type V = CharacterOptionView;

    open spec fn view(&self) -> CharacterOptionView {
        CharacterOptionView { name: self.name@, styles: seq_view(self.styles@) }
    }
}

/// The menu from which the voice of a line is chosen.
pub type OptionsOwned = Vec<CharacterOption>;

/// The submenu for the styles with the given numbers, in order: one entry
/// for each number that the table knows.
pub open spec fn style_options(ids: Seq<i32>, table: Map<i32, StyleEntryView>) -> Seq<
    StyleOptionView,
>
    decreases ids.len(),
{
    if ids.len() == 0 {
        Seq::empty()
    } else {
        let before = style_options(ids.drop_last(), table);
        let id = ids.last();
        if table.contains_key(id) {
            before.push(
                StyleOptionView { icon: table[id].icon, style_name: table[id].style_name, style_id: id },
            )
        } else {
            before
        }
    }
}

/// The menu of the characters, in their order: each with its name and the
/// submenu of its styles.
pub open spec fn character_menu(
    characters: Seq<PortraitView>,
    table: Map<i32, StyleEntryView>,
) -> Seq<CharacterOptionView> {
    Seq::new(
        characters.len(),
        |i: int|
            CharacterOptionView {
                name: characters[i].name,
                styles: style_options(characters[i].style_ids, table),
            },
    )
}

/// The submenu for the styles with the given numbers: see [`style_options`].
pub fn build_style_options(ids: &Vec<i32>, table: &StyleTable) -> (r: Vec<StyleOption>)
    ensures
        seq_view(r@) == style_options(ids@, table_view(table@)),
{
    let mut out: Vec<StyleOption> = Vec::new();
    let mut i: usize = 0;
    assert(ids@.take(0) =~= Seq::<i32>::empty());
    assert(seq_view(out@) =~= Seq::<StyleOptionView>::empty());
    while i < ids.len()
        invariant
            i <= ids.len(),
            seq_view(out@) == style_options(ids@.take(i as int), table_view(table@)),
        decreases ids.len() - i,
    {
        proof {
            assert(ids@.take(i + 1).drop_last() =~= ids@.take(i as int));
            assert(ids@.take(i + 1).last() == ids@[i as int]);
        }
        let id = ids[i];
        match table.get(&id) {
            Some(entry) => {
                let option = StyleOption {
                    icon: copy_bytes(&entry.icon),
                    style_name: entry.style_name.clone(),
                    style_id: id,
                };
                proof {
                    crate::views::lemma_seq_view_push(out@, option);
                }
                out.push(option);
            },
            None => {},
        }
        i += 1;
    }
    assert(ids@.take(ids.len() as int) =~= ids@);
    out
}

/// The menu of the characters: see [`character_menu`].
pub fn build_character_change_menu(
    portrait_and_names: &Vec<Portrait>,
    style_id_uuid_table: &StyleTable,
) -> (r: OptionsOwned)
    ensures
        seq_view(r@) == character_menu(
            seq_view(portrait_and_names@),
            table_view(style_id_uuid_table@),
        ),
{
    let mut menu: Vec<CharacterOption> = Vec::new();
    let mut i: usize = 0;
    while i < portrait_and_names.len()
        invariant
            i <= portrait_and_names.len(),
            menu.len() == i,
            forall|j: int|
                0 <= j < i ==> (#[trigger] menu[j])@ == character_menu(
                    seq_view(portrait_and_names@),
                    table_view(style_id_uuid_table@),
                )[j],
        decreases portrait_and_names.len() - i,
    {
        let character = &portrait_and_names[i];
        let sub_menu = build_style_options(&character.style_ids, style_id_uuid_table);
        menu.push(CharacterOption { name: character.name.clone(), styles: sub_menu });
        i += 1;
    }
    assert(seq_view(menu@) =~= character_menu(
        seq_view(portrait_and_names@),
        table_view(style_id_uuid_table@),
    ));
    menu
}

/// The numbers of the styles that are marked as morphable.
pub open spec fn morphable_among(targets: Seq<(i32, MorphableTargetInfo)>) -> Set<i32> {
    Set::new(
        |id: i32|
            exists|i: int|
                0 <= i < targets.len() && (#[trigger] targets[i]).0 == id && targets[i].1.is_morphable,
    )
}

/// The numbers of the styles that are marked as morphable.
pub fn morphable_ids(targets: &Vec<(i32, MorphableTargetInfo)>) -> (r: BTreeSet<i32>)
    ensures
        r@ == morphable_among(targets@),
{
    let mut ids: BTreeSet<i32> = BTreeSet::new();
    let mut i: usize = 0;
    assert(ids@ =~= morphable_among(targets@.take(0)));
    while i < targets.len()
        invariant
            i <= targets.len(),
            ids@ == morphable_among(targets@.take(i as int)),
        decreases targets.len() - i,
    {
        let ghost before = ids@;
        if targets[i].1.is_morphable {
            ids.insert(targets[i].0);
        }
        proof {
            let next = targets@.take(i + 1);
            let prev = targets@.take(i as int);
            assert forall|id: i32| ids@.contains(id) <==> morphable_among(next).contains(id) by {
                if morphable_among(next).contains(id) {
                    let j = choose|j: int|
                        0 <= j < next.len() && (#[trigger] next[j]).0 == id && next[j].1.is_morphable;
                    if j < i {
                        assert(prev[j] == next[j]);
                    }
                }
                if before.contains(id) {
                    let j = choose|j: int|
                        0 <= j < prev.len() && (#[trigger] prev[j]).0 == id && prev[j].1.is_morphable;
                    assert(next[j] == prev[j]);
                }
                if targets@[i as int].1.is_morphable && id == targets@[i as int].0 {
                    assert(next[i as int] == targets@[i as int]);
                }
            }
            assert(ids@ =~= morphable_among(next));
        }
        i += 1;
    }
    assert(targets@.take(targets.len() as int) =~= targets@);
    ids
}

/// No byte string comes before itself.
pub proof fn lemma_bytes_before_irreflexive(a: Seq<u8>)
    ensures
        !bytes_before(a, a),
    decreases a.len(),
{
    if a.len() > 0 {
        lemma_bytes_before_irreflexive(a.drop_first());
    }
}

/// What comes before something that comes before a third comes before the
/// third.
pub proof fn lemma_bytes_before_transitive(a: Seq<u8>, b: Seq<u8>, c: Seq<u8>)
    requires
        bytes_before(a, b),
        bytes_before(b, c),
    ensures
        bytes_before(a, c),
    decreases a.len(),
{
    if a.len() > 0 && b.len() > 0 && c.len() > 0 && a[0] == b[0] && b[0] == c[0] {
        lemma_bytes_before_transitive(a.drop_first(), b.drop_first(), c.drop_first());
    }
}

/// Of two different byte strings one comes before the other.
pub proof fn lemma_bytes_before_total(a: Seq<u8>, b: Seq<u8>)
    requires
        a != b,
    ensures
        bytes_before(a, b) || bytes_before(b, a),
    decreases a.len(),
{
    if a.len() == 0 {
        assert(b.len() > 0) by {
            if b.len() == 0 {
                assert(a =~= b);
            }
        }
    } else if b.len() > 0 && a[0] == b[0] {
        assert(a.drop_first() != b.drop_first()) by {
            if a.drop_first() == b.drop_first() {
                assert(a =~= seq![a[0]] + a.drop_first());
                assert(b =~= seq![b[0]] + b.drop_first());
            }
        }
        lemma_bytes_before_total(a.drop_first(), b.drop_first());
    }
}

/// Of two different texts one comes before the other, and never both.
pub proof fn lemma_text_before_total(a: Seq<char>, b: Seq<char>)
    ensures
        !text_before(a, a),
        a != b ==> text_before(a, b) || text_before(b, a),
        !(text_before(a, b) && text_before(b, a)),
{
    lemma_bytes_before_irreflexive(encode_utf8(a));
    if a != b {
        vstd::utf8::encode_utf8_decode_utf8(a);
        vstd::utf8::encode_utf8_decode_utf8(b);
        lemma_bytes_before_total(encode_utf8(a), encode_utf8(b));
    }
    if text_before(a, b) && text_before(b, a) {
        lemma_bytes_before_transitive(encode_utf8(a), encode_utf8(b), encode_utf8(a));
    }
}

/// Whether the characters stand in the order of their keys, each key once.
pub open spec fn in_key_order(characters: Seq<PortraitView>) -> bool {
    forall|i: int, j: int|
        0 <= i < j < characters.len() ==> text_before(
            #[trigger] characters[i].speaker_uuid,
            #[trigger] characters[j].speaker_uuid,
        )
}

/// Whether `entry` is the one character of `characters` with its key.
pub open spec fn holds_once(characters: Seq<PortraitView>, entry: PortraitView) -> bool {
    exists|i: int|
        {
            &&& 0 <= i < characters.len()
            &&& #[trigger] characters[i] == entry
            &&& forall|j: int|
                0 <= j < characters.len() && j != i ==> (#[trigger] characters[j]).speaker_uuid
                    != entry.speaker_uuid
        }
}

/// Among characters in the order of their keys, putting a character in its
/// place keeps the order: the character is then the one with its key, every
/// character with another key stays, and no other character comes in.
pub proof fn lemma_placed_in_order(characters: Seq<PortraitView>, entry: PortraitView)
    requires
        in_key_order(characters),
    ensures
        in_key_order(placed(characters, entry)),
        holds_once(placed(characters, entry), entry),
        forall|i: int|
            0 <= i < characters.len() && (#[trigger] characters[i]).speaker_uuid
                != entry.speaker_uuid ==> placed(characters, entry).contains(characters[i]),
        forall|i: int|
            0 <= i < placed(characters, entry).len() ==> (#[trigger] placed(characters, entry)[i])
                == entry || characters.contains(placed(characters, entry)[i]),
    decreases characters.len(),
{
    let key = entry.speaker_uuid;
    let after = placed(characters, entry);
    if characters.len() == 0 {
        assert(after[0] == entry);
    } else if text_before(key, characters[0].speaker_uuid) {
        assert(after =~= seq![entry] + characters);
        assert forall|i: int, j: int| 0 <= i < j < after.len() implies text_before(
            #[trigger] after[i].speaker_uuid,
            #[trigger] after[j].speaker_uuid,
        ) by {
            if i == 0 {
                if j > 1 {
                    assert(text_before(characters[0].speaker_uuid, characters[j - 1].speaker_uuid));
                    lemma_bytes_before_transitive(
                        encode_utf8(key),
                        encode_utf8(characters[0].speaker_uuid),
                        encode_utf8(characters[j - 1].speaker_uuid),
                    );
                }
            } else {
                assert(text_before(characters[i - 1].speaker_uuid, characters[j - 1].speaker_uuid));
            }
        }
        assert(after[0] == entry);
        assert forall|j: int| 0 <= j < after.len() && j != 0 implies (#[trigger] after[j]).speaker_uuid
            != key by {
            assert(text_before(after[0].speaker_uuid, after[j].speaker_uuid));
            lemma_text_before_total(key, key);
        }
        assert forall|i: int|
            0 <= i < characters.len() implies after.contains(#[trigger] characters[i]) by {
            assert(after[i + 1] == characters[i]);
        }
        assert forall|i: int| 0 <= i < after.len() implies (#[trigger] after[i]) == entry
            || characters.contains(after[i]) by {
            if i > 0 {
                assert(characters[i - 1] == after[i]);
            }
        }
    } else if key == characters[0].speaker_uuid {
        assert(after =~= seq![entry] + characters.drop_first());
        assert forall|i: int, j: int| 0 <= i < j < after.len() implies text_before(
            #[trigger] after[i].speaker_uuid,
            #[trigger] after[j].speaker_uuid,
        ) by {
            assert(text_before(
                characters[i].speaker_uuid,
                characters[j].speaker_uuid,
            ));
        }
        assert(after[0] == entry);
        assert forall|j: int| 0 <= j < after.len() && j != 0 implies (#[trigger] after[j]).speaker_uuid
            != key by {
            assert(text_before(after[0].speaker_uuid, after[j].speaker_uuid));
            lemma_text_before_total(key, key);
        }
        assert forall|i: int|
            0 <= i < characters.len() && (#[trigger] characters[i]).speaker_uuid
                != key implies after.contains(characters[i]) by {
            assert(after[i] == characters[i]);
        }
        assert forall|i: int| 0 <= i < after.len() implies (#[trigger] after[i]) == entry
            || characters.contains(after[i]) by {
            if i > 0 {
                assert(characters[i] == after[i]);
            }
        }
    } else {
        let rest = characters.drop_first();
        let head = characters[0];
        assert(in_key_order(rest)) by {
            assert forall|i: int, j: int| 0 <= i < j < rest.len() implies text_before(
                #[trigger] rest[i].speaker_uuid,
                #[trigger] rest[j].speaker_uuid,
            ) by {
                assert(text_before(
                    characters[i + 1].speaker_uuid,
                    characters[j + 1].speaker_uuid,
                ));
            }
        }
        lemma_placed_in_order(rest, entry);
        let tail = placed(rest, entry);
        assert(after =~= seq![head] + tail);
        lemma_text_before_total(key, head.speaker_uuid);
        assert(text_before(head.speaker_uuid, key));
        assert forall|i: int, j: int| 0 <= i < j < after.len() implies text_before(
            #[trigger] after[i].speaker_uuid,
            #[trigger] after[j].speaker_uuid,
        ) by {
            if i == 0 {
                let x = tail[j - 1];
                if x != entry {
                    assert(rest.contains(x));
                    let m = choose|m: int| 0 <= m < rest.len() && rest[m] == x;
                    assert(text_before(characters[0].speaker_uuid, characters[m + 1].speaker_uuid));
                }
            } else {
                assert(text_before(tail[i - 1].speaker_uuid, tail[j - 1].speaker_uuid));
            }
        }
        let p = choose|p: int|
            {
                &&& 0 <= p < tail.len()
                &&& #[trigger] tail[p] == entry
                &&& forall|j: int|
                    0 <= j < tail.len() && j != p ==> (#[trigger] tail[j]).speaker_uuid != key
            };
        assert(after[p + 1] == entry);
        assert forall|j: int|
            0 <= j < after.len() && j != p + 1 implies (#[trigger] after[j]).speaker_uuid != key by {
            if j > 0 {
                assert(tail[j - 1].speaker_uuid != key);
            }
        }
        assert forall|i: int|
            0 <= i < characters.len() && (#[trigger] characters[i]).speaker_uuid
                != key implies after.contains(characters[i]) by {
            if i == 0 {
                assert(after[0] == characters[0]);
            } else {
                assert(rest[i - 1] == characters[i]);
                assert(tail.contains(rest[i - 1]));
                let m = choose|m: int| 0 <= m < tail.len() && tail[m] == rest[i - 1];
                assert(after[m + 1] == characters[i]);
            }
        }
        assert forall|i: int| 0 <= i < after.len() implies (#[trigger] after[i]) == entry
            || characters.contains(after[i]) by {
            if i == 0 {
                assert(characters[0] == after[0]);
            } else {
                let x = tail[i - 1];
                if x != entry {
                    assert(rest.contains(x));
                    let m = choose|m: int| 0 <= m < rest.len() && rest[m] == x;
                    assert(characters[m + 1] == x);
                }
            }
        }
    }
}

} // verus!
