use vstd::prelude::*;

verus! {

/// A change of the framebuffer that the host is told about.
#[derive(Debug, Clone, Copy, PartialEq, Eq, Structural)]
pub enum PixelEvent {
    /// The whole screen went dark.
    Clear,
    /// The pixel at column `x`, row `y` lit up.
    SetPixel { x: u8, y: u8 },
    /// The pixel at column `x`, row `y` went dark.
    UnsetPixel { x: u8, y: u8 },
}

/// A value that the host stashes in the engine and gets back when it handles notifications.
pub struct CallbackData<D> {
    data: Option<D>,
}

impl<D> View for CallbackData<D> {
    type V = Option<D>;

    closed spec fn view(&self) -> Option<D> {
        self.data
    }
}

impl<D> CallbackData<D> {
    pub fn new(value: D) -> (r: Self)
        ensures
            r@ == Some(value),
    {
        CallbackData { data: Some(value) }
    }

    /// A holder with nothing in it.
    pub fn empty() -> (r: Self)
        ensures
            r@ is None,
    {
        CallbackData { data: None }
    }

    /// The stashed value, or `None` where nothing was stashed.
    pub fn get(&self) -> (r: Option<&D>)
        ensures
            match self@ {
                Some(d) => r == Some(&d),
                None => r is None,
            },
    {
        match &self.data {
            Some(t) => Some(t),
            None => None,
        }
    }

    /// The stashed value for changing in place, or `None` where nothing was stashed.
    pub fn get_mut(&mut self) -> (r: Option<&mut D>)
        ensures
            old(self)@ is None ==> r is None && final(self)@ is None,
            old(self)@ is Some ==> r is Some,
            match r {
                Some(d) => *d == old(self)@->0 && final(self)@ == Some(*final(d)),
                None => true,
            },
    {
        match &mut self.data {
            Some(t) => Some(t),
            None => None,
        }
    }
}

/// Where the engine reports framebuffer changes: the host's stashed value and the
/// notifications not yet handed out, oldest first.
pub struct Chip8Callback<D> {
    callback_data: CallbackData<D>,
    events: Vec<PixelEvent>,
}

impl<D> View for Chip8Callback<D> {
    type V = (Option<D>, Seq<PixelEvent>);

    closed spec fn view(&self) -> (Option<D>, Seq<PixelEvent>) {
        (self.callback_data@, self.events@)
    }
}

impl<D> Chip8Callback<D> {
    /// No stashed value and no pending notification.
    pub fn new() -> (r: Self)
        ensures
            r@.0 is None,
            r@.1 == Seq::<PixelEvent>::empty(),
    {
        Chip8Callback { callback_data: CallbackData::empty(), events: Vec::new() }
    }

    pub fn set_callback_data(&mut self, callback_data: CallbackData<D>)
        ensures
            final(self)@ == (callback_data@, old(self)@.1),
    {
        self.callback_data = callback_data;
    }

    pub fn borrow_callback_data(&self) -> (r: &CallbackData<D>)
        ensures
            r@ == self@.0,
    {
        &self.callback_data
    }

    pub fn borrow_mut_callback_data(&mut self) -> (r: &mut CallbackData<D>)
        ensures
            r@ == old(self)@.0,
            final(self)@ == (final(r)@, old(self)@.1),
    {
        &mut self.callback_data
    }

    /// Records one notification after those already pending.
    pub fn notify(&mut self, event: PixelEvent)
        ensures
            final(self)@ == (old(self)@.0, old(self)@.1.push(event)),
    {
        self.events.push(event);
    }

    /// Hands out the pending notifications, oldest first, and forgets them.
    pub fn take_events(&mut self) -> (r: Vec<PixelEvent>)
        ensures
            r@ == old(self)@.1,
            final(self)@ == (old(self)@.0, Seq::<PixelEvent>::empty()),
    {
        let mut taken: Vec<PixelEvent> = Vec::new();
        std::mem::swap(&mut taken, &mut self.events);
        taken
    }
}

} // verus!
