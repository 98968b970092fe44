//! The scene-object store: live objects carrying lifecycle tags, the shared
//! log of emitted tokens, the controls activated this tick, and the
//! process-termination flag. Hook actions observe and mutate a [`World`];
//! everything they can do to it is specified here.

use vstd::prelude::*;

verus! {

/// A scene object: a lifecycle tag that scopes its destruction to the phase
/// that created it, and a kind that says what was spawned (a camera, a menu
/// graphic, an obstacle, ...).
#[derive(Clone, Copy, PartialEq, Eq, Structural, Debug)]
pub struct SceneObject {
    pub tag: u32,
    pub kind: u32,
}

/// The objects of `s` that do not carry `tag`, in their original order.
pub open spec fn objects_without(s: Seq<SceneObject>, tag: u32) -> Seq<SceneObject> {
    s.filter(|o: SceneObject| o.tag != tag)
}

/// The objects of `s` that carry `tag`, in their original order.
pub open spec fn objects_with(s: Seq<SceneObject>, tag: u32) -> Seq<SceneObject> {
    s.filter(|o: SceneObject| o.tag == tag)
}

/// No object of `s` carries `tag`.
pub open spec fn no_tagged(s: Seq<SceneObject>, tag: u32) -> bool {
    forall|i: int| 0 <= i < s.len() ==> (#[trigger] s[i]).tag != tag
}

/// What a [`World`] looks like in contracts.
#[verifier::ext_equal]
pub struct WorldView {
    pub scene: Seq<SceneObject>,
    pub log: Seq<u32>,
    pub inputs: Seq<u32>,
    pub exit: bool,
}

/// The shared world that hook actions act on.
pub struct World {
    scene: Vec<SceneObject>,
    log: Vec<u32>,
    inputs: Vec<u32>,
    exit: bool,
}

/// One step of a left-to-right sweep: the first `i + 1` objects keep exactly
/// the kept objects among the first `i`, extended by `s[i]` when that object
/// does not carry `tag`.
proof fn lemma_without_take_step(s: Seq<SceneObject>, tag: u32, i: int)
    requires
        0 <= i < s.len(),
    ensures
        s[i].tag != tag ==> objects_without(s.take(i + 1), tag) == objects_without(
            s.take(i),
            tag,
        ).push(s[i]),
        s[i].tag == tag ==> objects_without(s.take(i + 1), tag) == objects_without(s.take(i), tag),
{
    let t = s.take(i + 1);
    assert(t.len() == i + 1);
    assert(t.last() == s[i]);
    assert(t.drop_last() =~= s.take(i));
    reveal(Seq::filter);
}

/// One step of a left-to-right count: the same, for the objects that do
/// carry `tag`.
proof fn lemma_with_take_step(s: Seq<SceneObject>, tag: u32, i: int)
    requires
        0 <= i < s.len(),
    ensures
        s[i].tag == tag ==> objects_with(s.take(i + 1), tag) == objects_with(s.take(i), tag).push(
            s[i],
        ),
        s[i].tag != tag ==> objects_with(s.take(i + 1), tag) == objects_with(s.take(i), tag),
{
    let t = s.take(i + 1);
    assert(t.len() == i + 1);
    assert(t.last() == s[i]);
    assert(t.drop_last() =~= s.take(i));
    reveal(Seq::filter);
}

impl View for World {
    type V = WorldView;

    closed spec fn view(&self) -> WorldView {
        WorldView { scene: self.scene@, log: self.log@, inputs: self.inputs@, exit: self.exit }
    }
}

impl World {
    /// An empty world: no objects, an empty log, no activated controls, and
    /// no termination request.
    pub fn new() -> (w: World)
        ensures
            w@ == (WorldView {
                scene: Seq::<SceneObject>::empty(),
                log: Seq::<u32>::empty(),
                inputs: Seq::<u32>::empty(),
                exit: false,
            }),
    {
        let w = World { scene: Vec::new(), log: Vec::new(), inputs: Vec::new(), exit: false };
        proof {
            assert(w@ =~= (WorldView {
                scene: Seq::<SceneObject>::empty(),
                log: Seq::<u32>::empty(),
                inputs: Seq::<u32>::empty(),
                exit: false,
            }));
        }
        w
    }

    /// Creates one object carrying `tag`; nothing else changes.
    pub fn spawn(&mut self, tag: u32, kind: u32)
        ensures
            final(self)@ == (WorldView {
                scene: old(self)@.scene.push(SceneObject { tag, kind }),
                ..old(self)@
            }),
    {
        self.scene.push(SceneObject { tag, kind });
        proof {
            assert(final(self)@ =~= (WorldView {
                scene: old(self)@.scene.push(SceneObject { tag, kind }),
                ..old(self)@
            }));
        }
    }

    /// Destroys every live object carrying `tag` and no other: the remaining
    /// objects are exactly those without the tag, in their original order.
    /// Destroying an already-absent tag is a no-op, not an error.
    pub fn despawn_tagged(&mut self, tag: u32)
        ensures
            final(self)@ == (WorldView {
                scene: objects_without(old(self)@.scene, tag),
                ..old(self)@
            }),
    {
        let mut kept: Vec<SceneObject> = Vec::new();
        let mut i: usize = 0;
        while i < self.scene.len()
            invariant
                i <= self.scene.len(),
                self.scene@ == old(self)@.scene,
                self.log@ == old(self)@.log,
                self.inputs@ == old(self)@.inputs,
                self.exit == old(self)@.exit,
                kept@ == objects_without(self.scene@.take(i as int), tag),
            decreases self.scene.len() - i,
        {
            let o = self.scene[i];
            proof {
                lemma_without_take_step(self.scene@, tag, i as int);
            }
            if o.tag != tag {
                kept.push(o);
            }
            i += 1;
        }
        proof {
            assert(self.scene@.take(self.scene@.len() as int) =~= self.scene@);
        }
        self.scene = kept;
        proof {
            assert(final(self)@ =~= (WorldView {
                scene: objects_without(old(self)@.scene, tag),
                ..old(self)@
            }));
        }
    }

    /// Appends `token` to the shared log; nothing else changes.
    pub fn emit(&mut self, token: u32)
        ensures
            final(self)@ == (WorldView { log: old(self)@.log.push(token), ..old(self)@ }),
    {
        self.log.push(token);
        proof {
            assert(final(self)@ =~= (WorldView { log: old(self)@.log.push(token), ..old(self)@ }));
        }
    }

    /// Marks `control` as activated for the coming tick.
    pub fn press(&mut self, control: u32)
        ensures
            final(self)@ == (WorldView { inputs: old(self)@.inputs.push(control), ..old(self)@ }),
    {
        self.inputs.push(control);
        proof {
            assert(final(self)@ =~= (WorldView {
                inputs: old(self)@.inputs.push(control),
                ..old(self)@
            }));
        }
    }

    /// Forgets the activated controls; done by the host once the tick that
    /// consumed them is over.
    pub fn clear_inputs(&mut self)
        ensures
            final(self)@ == (WorldView { inputs: Seq::<u32>::empty(), ..old(self)@ }),
    {
        self.inputs = Vec::new();
        proof {
            assert(final(self)@ =~= (WorldView { inputs: Seq::<u32>::empty(), ..old(self)@ }));
        }
    }

    /// Whether `control` was activated this tick.
    pub fn input_active(&self, control: u32) -> (r: bool)
        ensures
            r == self@.inputs.contains(control),
    {
        let mut i: usize = 0;
        while i < self.inputs.len()
            invariant
                i <= self.inputs.len(),
                forall|j: int| 0 <= j < i ==> self@.inputs[j] != control,
            decreases self.inputs.len() - i,
        {
            if self.inputs[i] == control {
                return true;
            }
            i += 1;
        }
        false
    }

    /// Raises the process-termination flag; the host reads it after each tick.
    pub fn request_exit(&mut self)
        ensures
            final(self)@ == (WorldView { exit: true, ..old(self)@ }),
    {
        self.exit = true;
        proof {
            assert(final(self)@ =~= (WorldView { exit: true, ..old(self)@ }));
        }
    }

    /// Whether some hook has asked the host to terminate the process.
    pub fn exit_requested(&self) -> (r: bool)
        ensures
            r == self@.exit,
    {
        self.exit
    }

    /// The tokens emitted so far, oldest first.
    pub fn log(&self) -> (r: &Vec<u32>)
        ensures
            r@ == self@.log,
    {
        &self.log
    }

    /// The live scene objects, oldest first.
    pub fn objects(&self) -> (r: &Vec<SceneObject>)
        ensures
            r@ == self@.scene,
    {
        &self.scene
    }

    /// How many live objects carry `tag`.
    pub fn tagged_count(&self, tag: u32) -> (n: usize)
        ensures
            n == objects_with(self@.scene, tag).len(),
    {
        let mut n: usize = 0;
        let mut i: usize = 0;
        while i < self.scene.len()
            invariant
                i <= self.scene.len(),
                n == objects_with(self@.scene.take(i as int), tag).len(),
                n <= i,
            decreases self.scene.len() - i,
        {
            proof {
                lemma_with_take_step(self.scene@, tag, i as int);
            }
            if self.scene[i].tag == tag {
                n += 1;
            }
            i += 1;
        }
        proof {
            assert(self@.scene.take(self@.scene.len() as int) =~= self@.scene);
        }
        n
    }
}

/// A sweep leaves no object with the swept tag behind.
pub proof fn lemma_sweep_clears_tag(s: Seq<SceneObject>, tag: u32)
    ensures
        no_tagged(objects_without(s, tag), tag),
{
    broadcast use vstd::seq_lib::group_seq_properties;

    let pred = |o: SceneObject| o.tag != tag;
    assert forall|i: int| 0 <= i < objects_without(s, tag).len() implies (#[trigger] objects_without(
        s,
        tag,
    )[i]).tag != tag by {
        s.lemma_filter_pred(pred, i);
    }
}

/// A sweep is idempotent: sweeping a tag out of a scene that no longer holds
/// it changes nothing.
pub proof fn lemma_sweep_idempotent(s: Seq<SceneObject>, tag: u32)
    ensures
        objects_without(objects_without(s, tag), tag) == objects_without(s, tag),
    decreases s.len(),
{
    reveal(Seq::filter);
    let pred = |o: SceneObject| o.tag != tag;
    if s.len() == 0 {
        assert(s.filter(pred) =~= s);
    } else {
        lemma_sweep_idempotent(s.drop_last(), tag);
        if pred(s.last()) {
            assert(s.filter(pred) == s.drop_last().filter(pred).push(s.last()));
            let inner = s.drop_last().filter(pred);
            assert(inner.push(s.last()).drop_last() =~= inner);
        }
    }
}

/// A sweep of one tag cannot bring an object of another tag into being: a
/// scene with no `tag` objects still has none after sweeping `swept`.
pub proof fn lemma_no_tagged_after_sweep(s: Seq<SceneObject>, swept: u32, tag: u32)
    requires
        no_tagged(s, tag),
    ensures
        no_tagged(objects_without(s, swept), tag),
    decreases s.len(),
{
    reveal(Seq::filter);
    if s.len() == 0 {
    } else {
        assert forall|i: int| 0 <= i < s.drop_last().len() implies (#[trigger] s.drop_last()[i]).tag
            != tag by {
            assert(s.drop_last()[i] == s[i]);
        }
        lemma_no_tagged_after_sweep(s.drop_last(), swept, tag);
        let keep = |o: SceneObject| o.tag != swept;
        if keep(s.last()) {
            let inner = objects_without(s.drop_last(), swept);
            assert(s.last().tag != tag);
            assert forall|i: int| 0 <= i < inner.push(s.last()).len() implies (#[trigger] inner.push(
                s.last(),
            )[i]).tag != tag by {
                if i < inner.len() {
                    assert(inner.push(s.last())[i] == inner[i]);
                } else {
                    assert(inner.push(s.last())[i] == s.last());
                }
            }
        }
    }
}

/// A sweep does not touch objects of other tags: the objects without any
/// other tag are the same before and after.
pub proof fn lemma_sweep_preserves_other_tags(s: Seq<SceneObject>, tag: u32, other: u32)
    requires
        other != tag,
    ensures
        objects_with(objects_without(s, tag), other) == objects_with(s, other),
    decreases s.len(),
{
    reveal(Seq::filter);
    let keep = |o: SceneObject| o.tag != tag;
    let sel = |o: SceneObject| o.tag == other;
    if s.len() == 0 {
    } else {
        lemma_sweep_preserves_other_tags(s.drop_last(), tag, other);
        if keep(s.last()) {
            let inner = s.drop_last().filter(keep);
            assert(inner.push(s.last()).drop_last() =~= inner);
        }
    }
}

} // verus!
