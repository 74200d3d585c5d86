//! Keeping the renderer's managed textures in step with the textures of the
//! paint DOM: which textures to create, update or drop, in order.
use vstd::prelude::*;
use std::collections::HashMap;
use crate::textures::ManagedTextureId;

verus! {

/// How a managed texture changed since the last frame.
#[derive(Clone, Copy, Debug, PartialEq, Eq, Structural)]
pub enum TextureChange {
    Added,
    Removed,
    Modified,
}

/// What the renderer does to its copy of a managed texture.
#[derive(Clone, Copy, Debug, PartialEq, Eq, Structural)]
pub enum TextureAction {
    /// Create the GPU texture from the paint DOM's texture, replacing any.
    Create(ManagedTextureId),
    /// Drop the GPU texture, if there is one.
    Remove(ManagedTextureId),
    /// Upload the paint DOM's texture into the existing GPU texture.
    Update(ManagedTextureId),
}

/// The renderer's textures after one action, as a set of ids.
pub open spec fn apply_action(present: Set<u64>, a: TextureAction) -> Set<u64> {
    match a {
        TextureAction::Create(id) => present.insert(id.0),
        TextureAction::Remove(id) => present.remove(id.0),
        TextureAction::Update(_) => present,
    }
}

/// The renderer's textures after a list of actions.
pub open spec fn apply_actions(present: Set<u64>, actions: Seq<TextureAction>) -> Set<u64>
    decreases actions.len(),
{
    if actions.len() == 0 {
        present
    } else {
        apply_action(apply_actions(present, actions.drop_last()), actions.last())
    }
}

/// The actions that make sure every texture of the paint DOM (`textures`,
/// in order) exists: one creation for each that is missing.
pub open spec fn ensure_actions(present: Set<u64>, textures: Seq<ManagedTextureId>) -> Seq<
    TextureAction,
>
    decreases textures.len(),
{
    if textures.len() == 0 {
        Seq::empty()
    } else {
        let before = ensure_actions(present, textures.drop_last());
        let id = textures.last();
        if apply_actions(present, before).contains(id.0) {
            before
        } else {
            before.push(TextureAction::Create(id))
        }
    }
}

/// The action for one edit, given the textures that exist at that point:
/// an added texture is created (replacing any), a removed one dropped, a
/// modified one updated if it exists.
pub open spec fn edit_action(present: Set<u64>, id: ManagedTextureId, change: TextureChange) -> Option<
    TextureAction,
> {
    match change {
        TextureChange::Added => Some(TextureAction::Create(id)),
        TextureChange::Removed => Some(TextureAction::Remove(id)),
        TextureChange::Modified => if present.contains(id.0) {
            Some(TextureAction::Update(id))
        } else {
            None
        },
    }
}

/// The actions for the edits of the paint DOM (in order), after `before`.
pub open spec fn edit_actions(
    present: Set<u64>,
    before: Seq<TextureAction>,
    edits: Seq<(ManagedTextureId, TextureChange)>,
) -> Seq<TextureAction>
    decreases edits.len(),
{
    if edits.len() == 0 {
        before
    } else {
        let so_far = edit_actions(present, before, edits.drop_last());
        let (id, change) = edits.last();
        match edit_action(apply_actions(present, so_far), id, change) {
            Some(a) => so_far.push(a),
            None => so_far,
        }
    }
}

/// All actions for one frame: first make sure the paint DOM's textures exist,
/// then apply its edits.
pub open spec fn sync_actions(
    present: Set<u64>,
    textures: Seq<ManagedTextureId>,
    edits: Seq<(ManagedTextureId, TextureChange)>,
) -> Seq<TextureAction> {
    edit_actions(present, ensure_actions(present, textures), edits)
}

proof fn lemma_apply_push(present: Set<u64>, actions: Seq<TextureAction>, a: TextureAction)
    ensures
        apply_actions(present, actions.push(a)) == apply_action(apply_actions(present, actions), a),
{
    assert(actions.push(a).drop_last() =~= actions);
}

/// Which of the ids are present: those of `initial`, changed by `overrides`
/// (an id mapped to `true` was created, to `false` dropped).
pub open spec fn present_with(initial: Set<u64>, overrides: Map<u64, bool>) -> Set<u64> {
    Set::new(
        |k: u64|
            if overrides.contains_key(k) {
                overrides[k]
            } else {
                initial.contains(k)
            },
    )
}

fn record(
    actions: &mut Vec<TextureAction>,
    overrides: &mut HashMap<u64, bool>,
    a: TextureAction,
    Ghost(initial): Ghost<Set<u64>>,
)
    requires
        present_with(initial, old(overrides)@) == apply_actions(initial, old(actions)@),
    ensures
        final(actions)@ == old(actions)@.push(a),
        present_with(initial, final(overrides)@) == apply_actions(initial, final(actions)@),
{
    broadcast use vstd::std_specs::hash::group_hash_axioms;

    proof {
        lemma_apply_push(initial, actions@, a);
    }
    match a {
        TextureAction::Create(id) => {
            overrides.insert(id.0, true);
        },
        TextureAction::Remove(id) => {
            overrides.insert(id.0, false);
        },
        TextureAction::Update(_) => {},
    }
    actions.push(a);
    assert(present_with(initial, overrides@) =~= apply_actions(initial, actions@));
}

fn is_present<M>(current: &HashMap<u64, M>, overrides: &HashMap<u64, bool>, id: u64) -> (r: bool)
    ensures
        r == present_with(current@.dom(), overrides@).contains(id),
{
    broadcast use vstd::std_specs::hash::group_hash_axioms;

    match overrides.get(&id) {
        Some(b) => *b,
        None => current.contains_key(&id),
    }
}

/// The actions that bring the renderer's managed textures (`current`, keyed
/// by id bits) in step with the paint DOM: its textures, then its edits, each
/// in the given order.
pub fn plan_texture_sync<M>(
    current: &HashMap<u64, M>,
    textures: &[ManagedTextureId],
    edits: &[(ManagedTextureId, TextureChange)],
) -> (r: Vec<TextureAction>)
    ensures
        r@ == sync_actions(current@.dom(), textures@, edits@),
{
    broadcast use vstd::std_specs::hash::group_hash_axioms;

    let ghost initial = current@.dom();
    let mut actions: Vec<TextureAction> = Vec::new();
    let mut overrides: HashMap<u64, bool> = HashMap::new();
    assert(present_with(initial, overrides@) =~= apply_actions(initial, actions@));
    let mut i: usize = 0;
    while i < textures.len()
        invariant
            i <= textures@.len(),
            initial == current@.dom(),
            actions@ == ensure_actions(initial, textures@.take(i as int)),
            present_with(initial, overrides@) == apply_actions(initial, actions@),
        decreases textures@.len() - i,
    {
        let id = textures[i];
        assert(textures@.take(i + 1).drop_last() =~= textures@.take(i as int));
        if !is_present(current, &overrides, id.0) {
            record(&mut actions, &mut overrides, TextureAction::Create(id), Ghost(initial));
        }
        i = i + 1;
    }
    assert(textures@.take(textures@.len() as int) =~= textures@);
    let ghost before = actions@;
    let mut i: usize = 0;
    while i < edits.len()
        invariant
            i <= edits@.len(),
            initial == current@.dom(),
            before == ensure_actions(initial, textures@),
            actions@ == edit_actions(initial, before, edits@.take(i as int)),
            present_with(initial, overrides@) == apply_actions(initial, actions@),
        decreases edits@.len() - i,
    {
        let (id, change) = edits[i];
        assert(edits@.take(i + 1).drop_last() =~= edits@.take(i as int));
        match change {
            TextureChange::Added => {
                record(&mut actions, &mut overrides, TextureAction::Create(id), Ghost(initial));
            },
            TextureChange::Removed => {
                record(&mut actions, &mut overrides, TextureAction::Remove(id), Ghost(initial));
            },
            TextureChange::Modified => {
                if is_present(current, &overrides, id.0) {
                    record(&mut actions, &mut overrides, TextureAction::Update(id), Ghost(initial));
                }
            },
        }
        i = i + 1;
    }
    assert(edits@.take(edits@.len() as int) =~= edits@);
    actions
}

} // verus!

verus! {

/// The ids of `textures`.
pub open spec fn texture_ids(textures: Seq<ManagedTextureId>) -> Set<u64> {
    Set::new(|k: u64| exists|i: int| 0 <= i < textures.len() && #[trigger] textures[i].0 == k)
}

/// Making sure the paint DOM's textures exist leaves exactly the textures
/// there were plus those of the paint DOM.
pub proof fn lemma_ensure_covers_textures(present: Set<u64>, textures: Seq<ManagedTextureId>)
    ensures
        apply_actions(present, ensure_actions(present, textures)) == present.union(
            texture_ids(textures),
        ),
    decreases textures.len(),
{
    if textures.len() == 0 {
        assert(texture_ids(textures) =~= Set::empty());
        assert(present.union(texture_ids(textures)) =~= present);
    } else {
        let rest = textures.drop_last();
        let id = textures.last();
        lemma_ensure_covers_textures(present, rest);
        let before = ensure_actions(present, rest);
        assert(texture_ids(textures) =~= texture_ids(rest).insert(id.0)) by {
            assert forall|k: u64| texture_ids(textures).contains(k) implies texture_ids(
                rest,
            ).insert(id.0).contains(k) by {
                let i = choose|i: int| 0 <= i < textures.len() && #[trigger] textures[i].0 == k;
                if i < rest.len() {
                    assert(rest[i] == textures[i]);
                }
            }
            assert forall|k: u64| texture_ids(rest).insert(id.0).contains(k) implies texture_ids(
                textures,
            ).contains(k) by {
                if k == id.0 {
                    assert(textures[textures.len() - 1].0 == k);
                } else {
                    let i = choose|i: int| 0 <= i < rest.len() && #[trigger] rest[i].0 == k;
                    assert(textures[i] == rest[i]);
                }
            }
        }
        if !apply_actions(present, before).contains(id.0) {
            lemma_apply_push(present, before, TextureAction::Create(id));
        }
        assert(apply_actions(present, ensure_actions(present, textures)) =~= present.union(
            texture_ids(textures),
        ));
    }
}

/// Whatever came before, the last edit of a texture decides whether the
/// renderer has it: an added texture exists, a removed one does not.
pub proof fn lemma_last_edit_decides(
    present: Set<u64>,
    before: Seq<TextureAction>,
    edits: Seq<(ManagedTextureId, TextureChange)>,
    id: ManagedTextureId,
)
    ensures
        apply_actions(present, edit_actions(present, before, edits.push((id, TextureChange::Added))))
            .contains(id.0),
        !apply_actions(
            present,
            edit_actions(present, before, edits.push((id, TextureChange::Removed))),
        ).contains(id.0),
{
    let so_far = edit_actions(present, before, edits);
    assert(edits.push((id, TextureChange::Added)).drop_last() =~= edits);
    assert(edits.push((id, TextureChange::Removed)).drop_last() =~= edits);
    lemma_apply_push(present, so_far, TextureAction::Create(id));
    lemma_apply_push(present, so_far, TextureAction::Remove(id));
}

} // verus!

verus! {

/// A modified texture that the renderer has at that point of the frame,
/// whether it had it before the frame or created it earlier in the frame, is
/// re-uploaded; one it does not have is left alone.
pub proof fn lemma_modified_texture_is_updated_when_present(
    present: Set<u64>,
    before: Seq<TextureAction>,
    edits: Seq<(ManagedTextureId, TextureChange)>,
    id: ManagedTextureId,
)
    ensures
        ({
            let so_far = edit_actions(present, before, edits);
            let after = edit_actions(present, before, edits.push((id, TextureChange::Modified)));
            &&& apply_actions(present, so_far).contains(id.0) ==> after == so_far.push(
                TextureAction::Update(id),
            )
            &&& !apply_actions(present, so_far).contains(id.0) ==> after == so_far
        }),
{
    assert(edits.push((id, TextureChange::Modified)).drop_last() =~= edits);
}

/// A single modification of a texture the renderer already has yields exactly
/// one update of it; of a texture it lacks, nothing.
pub proof fn lemma_single_modification(present: Set<u64>, id: ManagedTextureId)
    ensures
        present.contains(id.0) ==> sync_actions(
            present,
            Seq::empty(),
            seq![(id, TextureChange::Modified)],
        ) == seq![TextureAction::Update(id)],
        !present.contains(id.0) ==> sync_actions(
            present,
            Seq::empty(),
            seq![(id, TextureChange::Modified)],
        ) == Seq::<TextureAction>::empty(),
{
    let e = seq![(id, TextureChange::Modified)];
    let none = Seq::<TextureAction>::empty();
    assert(ensure_actions(present, Seq::<ManagedTextureId>::empty()) == none);
    assert(e.drop_last() =~= Seq::<(ManagedTextureId, TextureChange)>::empty());
    assert(edit_actions(present, none, e.drop_last()) == none);
    assert(apply_actions(present, none) == present);
    assert(e.last() == (id, TextureChange::Modified));
    assert(sync_actions(present, Seq::empty(), e) == edit_actions(present, none, e));
    if present.contains(id.0) {
        assert(edit_actions(present, none, e) == none.push(TextureAction::Update(id)));
        assert(none.push(TextureAction::Update(id)) =~= seq![TextureAction::Update(id)]);
    } else {
        assert(edit_actions(present, none, e) == none);
    }
}

/// Each texture of the paint DOM is created when, and only when, the renderer
/// does not have it at that point: a texture it already has gets no action.
pub proof fn lemma_listed_texture_created_only_when_missing(
    present: Set<u64>,
    textures: Seq<ManagedTextureId>,
    id: ManagedTextureId,
)
    ensures
        ({
            let so_far = ensure_actions(present, textures);
            let after = ensure_actions(present, textures.push(id));
            &&& apply_actions(present, so_far).contains(id.0) ==> after == so_far
            &&& !apply_actions(present, so_far).contains(id.0) ==> after == so_far.push(
                TextureAction::Create(id),
            )
        }),
{
    assert(textures.push(id).drop_last() =~= textures);
}

} // verus!
