use vstd::prelude::*;

verus! {

/// The model of `Screenshots`.
pub struct ScreensView {
    pub displays: Seq<u32>,
    pub screen_number: usize,
    pub default: bool,
    pub default_screen_number: usize,
}

/// The displays that can be captured, by id in enumeration order, and which
/// of them is selected. `default` holds until a display is picked by position.
pub struct Screenshots {
    screenshots: Vec<u32>,
    pub screen_number: usize,
    pub default: bool,
    default_screen_number: usize,
}

impl View for Screenshots {
    type V = ScreensView;

    closed spec fn view(&self) -> ScreensView {
        ScreensView {
            displays: self.screenshots@,
            screen_number: self.screen_number,
            default: self.default,
            default_screen_number: self.default_screen_number,
        }
    }
}

impl Screenshots {
    /// The displays `displays`, the first one selected.
    pub fn new(displays: Vec<u32>) -> (r: Screenshots)
        ensures
            r@ == (ScreensView {
                displays: displays@,
                screen_number: 0,
                default: true,
                default_screen_number: 0,
            }),
    {
        Screenshots { screenshots: displays, screen_number: 0, default: true, default_screen_number: 0 }
    }

    /// Selects the display with id `id`, if it is among the displays.
    pub fn set_screen_number(&mut self, id: u32)
        ensures
            final(self)@.displays == old(self)@.displays,
            final(self)@.default_screen_number == old(self)@.default_screen_number,
            !old(self)@.displays.contains(id) ==> final(self)@ == old(self)@,
            old(self)@.displays.contains(id) ==> {
                &&& !final(self)@.default
                &&& final(self)@.displays[final(self)@.screen_number as int] == id
                &&& forall|j: int| 0 <= j < final(self)@.screen_number ==> old(self)@.displays[j] != id
            },
    {
        let mut i: usize = 0;
        while i < self.screenshots.len()
            invariant
                self@ == old(self)@,
                i <= self.screenshots.len(),
                forall|j: int| 0 <= j < i ==> self@.displays[j] != id,
            decreases self.screenshots.len() - i,
        {
            if self.screenshots[i] == id {
                self.screen_number = i;
                self.default = false;
                return;
            }
            i += 1;
        }
    }

    /// Selects display number `i`; the selection is the default one exactly
    /// when `i` is the first selected display. Out of range, nothing changes.
    pub fn select_screen(&mut self, i: usize)
        ensures
            i < old(self)@.displays.len() ==> final(self)@ == (ScreensView {
                screen_number: i,
                default: i == old(self)@.default_screen_number,
                ..old(self)@
            }),
            i >= old(self)@.displays.len() ==> final(self)@ == old(self)@,
    {
        if i < self.screenshots.len() {
            self.screen_number = i;
            self.default = i == self.default_screen_number;
        }
    }

    /// The id of the selected display.
    pub fn get_screen(&self) -> (r: u32)
        requires
            self@.screen_number < self@.displays.len(),
        ensures
            r == self@.displays[self@.screen_number as int],
    {
        self.screenshots[self.screen_number]
    }

    /// The id of the display selected at first.
    pub fn get_default_screen(&self) -> (r: u32)
        requires
            self@.default_screen_number < self@.displays.len(),
        ensures
            r == self@.displays[self@.default_screen_number as int],
    {
        self.screenshots[self.default_screen_number]
    }

    /// Whether no display has been picked by position yet.
    pub fn is_default(&self) -> (r: bool)
        ensures
            r == self@.default,
    {
        self.default
    }

    pub fn total_screens(&self) -> (r: usize)
        ensures
            r == self@.displays.len(),
    {
        self.screenshots.len()
    }
}

} // verus!
