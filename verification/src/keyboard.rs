use vstd::prelude::*;

verus! {

/// A key identifier: the numeric code the windowing platform assigns to a key.
pub type Keys = u32;

/// Whether a keyboard event reports the key going down or coming back up.
#[derive(Clone, Copy, Debug)]
pub enum KeyState {
    Pressed,
    Released,
}

/// One raw keyboard event: the transition that happened and, when the platform
/// could resolve it, the key it happened to.
#[derive(Clone, Copy, Debug)]
pub struct KeyEvent {
    pub state: KeyState,
    pub key: Option<Keys>,
}

/// The set of pressed keys after one event is applied to `pressed`: a press
/// adds the key, a release removes it, and an event without a resolved key
/// changes nothing.
pub open spec fn spec_key_event_applied(pressed: Set<Keys>, event: KeyEvent) -> Set<Keys> {
    match event.key {
        Option::None => pressed,
        Option::Some(key) => match event.state {
            KeyState::Pressed => pressed.insert(key),
            KeyState::Released => pressed.remove(key),
        },
    }
}

/// The event that presses `key`.
pub open spec fn press_event(key: Keys) -> KeyEvent {
    KeyEvent { state: KeyState::Pressed, key: Option::Some(key) }
}

/// The event that releases `key`.
pub open spec fn release_event(key: Keys) -> KeyEvent {
    KeyEvent { state: KeyState::Released, key: Option::Some(key) }
}

/// Tracks which keys are currently held down.
#[derive(Clone, Debug)]
pub struct KeyboardState {
    pressed_keys: Vec<Keys>,
}

impl KeyboardState {
    /// Each pressed key is recorded at most once. Established by `new` and
    /// preserved by `update`.
    pub closed spec fn wf(self) -> bool {
        forall|i: int, j: int|
            0 <= i < j < self.pressed_keys@.len() ==> self.pressed_keys@[i] != self.pressed_keys@[j]
    }

    /// The keys currently pressed, as a set.
    pub closed spec fn pressed(self) -> Set<Keys> {
        Set::new(|key: Keys| self.pressed_keys@.contains(key))
    }

    pub fn new() -> (state: Self)
        ensures
            state.wf(),
            state.pressed() == Set::<Keys>::empty(),
    {
        let state = Self { pressed_keys: Vec::new() };
        proof {
            assert(state.pressed() =~= Set::<Keys>::empty());
        }
        state
    }

    /// Apply one raw event: a press adds the key if absent, a release removes
    /// it if present, and an event without a resolved key is ignored.
    pub fn update(&mut self, input: &KeyEvent)
        requires
            old(self).wf(),
        ensures
            final(self).wf(),
            final(self).pressed() == spec_key_event_applied(old(self).pressed(), *input),
    {
        match input.key {
            Option::Some(key) => {
                match input.state {
                    KeyState::Pressed => self.press_key(&key),
                    KeyState::Released => self.release_key(&key),
                }
            },
            Option::None => {},
        }
    }

    fn press_key(&mut self, key: &Keys)
        requires
            old(self).wf(),
        ensures
            final(self).wf(),
            final(self).pressed() == old(self).pressed().insert(*key),
    {
        if !self.is_key_pressed(*key) {
            self.pressed_keys.push(*key);
            proof {
                let oldseq = old(self).pressed_keys@;
                let newseq = self.pressed_keys@;
                assert forall|k: Keys| newseq.contains(k) implies (oldseq.contains(k) || k
                    == *key) by {
                    let i = choose|i: int| 0 <= i < newseq.len() && newseq[i] == k;
                    if i < oldseq.len() {
                        assert(oldseq[i] == k);
                    }
                }
                assert forall|k: Keys| (oldseq.contains(k) || k == *key) implies newseq.contains(
                    k,
                ) by {
                    if oldseq.contains(k) {
                        let i = choose|i: int| 0 <= i < oldseq.len() && oldseq[i] == k;
                        assert(newseq[i] == k);
                    } else {
                        assert(newseq[oldseq.len() as int] == k);
                    }
                }
                assert forall|i: int, j: int| 0 <= i < j < newseq.len() implies newseq[i]
                    != newseq[j] by {
                    if j == newseq.len() - 1 {
                        assert(oldseq[i] == newseq[i]);
                        assert(oldseq.contains(oldseq[i]));
                    }
                }
                assert(self.pressed() =~= old(self).pressed().insert(*key));
            }
        } else {
            proof {
                assert(self.pressed() =~= old(self).pressed().insert(*key));
            }
        }
    }

    fn release_key(&mut self, key: &Keys)
        requires
            old(self).wf(),
        ensures
            final(self).wf(),
            final(self).pressed() == old(self).pressed().remove(*key),
    {
        let index = match self.position_of(*key) {
            Option::Some(index) => index,
            Option::None => {
                proof {
                    assert(self.pressed() =~= old(self).pressed().remove(*key));
                }
                return;
            },
        };
        self.pressed_keys.remove(index);
        proof {
            let oldseq = old(self).pressed_keys@;
            let newseq = self.pressed_keys@;
            oldseq.remove_ensures(index as int);
            assert forall|k: Keys| newseq.contains(k) implies (oldseq.contains(k) && k
                != *key) by {
                let j = choose|j: int| 0 <= j < newseq.len() && newseq[j] == k;
                if j < index {
                    assert(oldseq[j] == k);
                    assert(oldseq[index as int] == *key);
                } else {
                    assert(oldseq[j + 1] == k);
                    assert(oldseq[index as int] == *key);
                }
            }
            assert forall|k: Keys| (oldseq.contains(k) && k != *key) implies newseq.contains(
                k,
            ) by {
                let j = choose|j: int| 0 <= j < oldseq.len() && oldseq[j] == k;
                if j < index {
                    assert(newseq[j] == k);
                } else {
                    assert(j != index);
                    assert(newseq[j - 1] == k);
                }
            }
            assert forall|i: int, j: int| 0 <= i < j < newseq.len() implies newseq[i]
                != newseq[j] by {
                let oi: int = if i < index { i } else { i + 1 };
                let oj: int = if j < index { j } else { j + 1 };
                assert(newseq[i] == oldseq[oi]);
                assert(newseq[j] == oldseq[oj]);
            }
            assert(self.pressed() =~= old(self).pressed().remove(*key));
        }
    }

    /// Exact membership test: whether `key` is currently held down.
    pub fn is_key_pressed(&self, key: Keys) -> (pressed: bool)
        ensures
            pressed == self.pressed().contains(key),
    {
        match self.position_of(key) {
            Option::Some(i) => {
                proof {
                    assert(self.pressed_keys@.contains(key));
                }
                true
            },
            Option::None => false,
        }
    }

    fn position_of(&self, key: Keys) -> (position: Option<usize>)
        ensures
            match position {
                Option::Some(i) => i < self.pressed_keys@.len() && self.pressed_keys@[i as int]
                    == key,
                Option::None => !self.pressed_keys@.contains(key),
            },
    {
        let mut i: usize = 0;
        while i < self.pressed_keys.len()
            invariant
                i <= self.pressed_keys@.len(),
                forall|k: int| 0 <= k < i ==> self.pressed_keys@[k] != key,
            decreases self.pressed_keys@.len() - i,
        {
            if self.pressed_keys[i] == key {
                return Option::Some(i);
            }
            i += 1;
        }
        Option::None
    }
}

/// Law: pressing a key and then releasing it leaves it unpressed, whatever was
/// pressed before.
pub proof fn lemma_press_then_release_unpressed(pressed: Set<Keys>, key: Keys)
    ensures
        !spec_key_event_applied(
            spec_key_event_applied(pressed, press_event(key)),
            release_event(key),
        ).contains(key),
{
}

/// Law: pressing a key that is already pressed changes nothing.
pub proof fn lemma_press_is_idempotent(pressed: Set<Keys>, key: Keys)
    ensures
        spec_key_event_applied(spec_key_event_applied(pressed, press_event(key)), press_event(key))
            == spec_key_event_applied(pressed, press_event(key)),
{
    assert(pressed.insert(key).insert(key) =~= pressed.insert(key));
}

/// Law: pressing a key twice and then releasing it once leaves it unpressed.
pub proof fn lemma_double_press_then_release_unpressed(pressed: Set<Keys>, key: Keys)
    ensures
        !spec_key_event_applied(
            spec_key_event_applied(
                spec_key_event_applied(pressed, press_event(key)),
                press_event(key),
            ),
            release_event(key),
        ).contains(key),
{
}

/// Law: releasing a key that is not pressed leaves the pressed set unchanged.
pub proof fn lemma_release_unpressed_is_noop(pressed: Set<Keys>, key: Keys)
    requires
        !pressed.contains(key),
    ensures
        spec_key_event_applied(pressed, release_event(key)) == pressed,
{
    assert(pressed.remove(key) =~= pressed);
}

} // verus!
