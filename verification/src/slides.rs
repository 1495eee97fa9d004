//! The slideshow: its buttons, and stepping through its slides.

use crate::text::same_text;
use vstd::prelude::*;

verus! {

/// The number of slides of the slideshow.
pub const SLIDE_COUNT: usize = 6;

/// The buttons below the slides.
#[derive(Clone, Copy, Debug, PartialEq, Eq, Structural)]
pub enum SlideButton {
    Previous,
    Next,
    Skip,
}

/// The button that carries the given label, if any does.
pub open spec fn spec_slide_button(label: Seq<char>) -> Option<SlideButton> {
    if label == "Previous"@ {
        Some(SlideButton::Previous)
    } else if label == "Next"@ {
        Some(SlideButton::Next)
    } else if label == "Skip"@ {
        Some(SlideButton::Skip)
    } else {
        None
    }
}

/// Finds the button that carries the given label.
pub fn slide_button(label: &str) -> (button: Option<SlideButton>)
    ensures
        button == spec_slide_button(label@),
{
    if same_text(label, "Previous") {
        Some(SlideButton::Previous)
    } else if same_text(label, "Next") {
        Some(SlideButton::Next)
    } else if same_text(label, "Skip") {
        Some(SlideButton::Skip)
    } else {
        None
    }
}

/// The label of a button.
pub fn button_label(button: SlideButton) -> (label: &'static str)
    ensures
        spec_slide_button(label@) == Some(button),
{
    proof {
        reveal_strlit("Previous");
        reveal_strlit("Next");
        reveal_strlit("Skip");
    }
    match button {
        SlideButton::Previous => "Previous",
        SlideButton::Next => {
            assert("Next"@.len() != "Previous"@.len());
            "Next"
        },
        SlideButton::Skip => {
            assert("Skip"@.len() != "Previous"@.len());
            assert("Skip"@[0] != "Next"@[0]);
            "Skip"
        },
    }
}

/// The image of the slide at the given position.
pub open spec fn spec_slide_image(index: nat) -> Seq<char>
    recommends
        index < SLIDE_COUNT,
{
    if index == 0 {
        "slides/1.png"@
    } else if index == 1 {
        "slides/3.png"@
    } else if index == 2 {
        "slides/6.png"@
    } else if index == 3 {
        "slides/7.png"@
    } else if index == 4 {
        "slides/8.png"@
    } else {
        "slides/9.png"@
    }
}

/// The slide before the given one; before the first comes the last.
pub open spec fn spec_previous_slide(index: nat) -> nat {
    if index > 0 {
        (index - 1) as nat
    } else {
        (SLIDE_COUNT - 1) as nat
    }
}

/// The slide behind the given one; behind the last comes the first.
pub open spec fn spec_next_slide(index: nat) -> nat {
    (index + 1) % (SLIDE_COUNT as nat)
}

/// What pressing a button does to the slideshow.
#[derive(Clone, Copy, Debug, PartialEq, Eq, Structural)]
pub enum SlideStep {
    /// The slide at the given position is shown.
    Show(usize),
    /// The slideshow is left.
    Leave,
}

/// The slideshow: the position of the slide that is shown.
#[derive(Clone, Copy, Debug, PartialEq, Eq)]
pub struct Slideshow {
    current: usize,
}

impl View for Slideshow {
    type V = nat;

    closed spec fn view(&self) -> nat {
        self.current as nat
    }
}

impl Slideshow {
    #[verifier::type_invariant]
    spec fn in_range(self) -> bool {
        self.current < SLIDE_COUNT
    }

    /// The slideshow at its first slide.
    pub fn new() -> (show: Slideshow)
        ensures
            show@ == 0,
    {
        Slideshow { current: 0 }
    }

    /// The position of the slide that is shown.
    pub fn current(&self) -> (index: usize)
        ensures
            index == self@,
            index < SLIDE_COUNT,
    {
        proof {
            use_type_invariant(self);
        }
        self.current
    }

    /// The image of the slide that is shown.
    pub fn image(&self) -> (path: &'static str)
        ensures
            path@ == spec_slide_image(self@),
    {
        proof {
            use_type_invariant(self);
        }
        match self.current {
            0 => "slides/1.png",
            1 => "slides/3.png",
            2 => "slides/6.png",
            3 => "slides/7.png",
            4 => "slides/8.png",
            _ => "slides/9.png",
        }
    }

    /// Presses a button: `Previous` and `Next` move to another slide, `Skip`
    /// leaves the slideshow where it stands.
    pub fn press(&mut self, button: SlideButton) -> (step: SlideStep)
        ensures
            final(self)@ == match button {
                SlideButton::Previous => spec_previous_slide(old(self)@),
                SlideButton::Next => spec_next_slide(old(self)@),
                SlideButton::Skip => old(self)@,
            },
            step == match button {
                SlideButton::Skip => SlideStep::Leave,
                _ => SlideStep::Show(final(self)@ as usize),
            },
            final(self)@ < SLIDE_COUNT,
    {
        proof {
            use_type_invariant(&*self);
        }
        match button {
            SlideButton::Previous => {
                if self.current > 0 {
                    self.current = self.current - 1;
                } else {
                    self.current = SLIDE_COUNT - 1;
                }
                SlideStep::Show(self.current)
            },
            SlideButton::Next => {
                self.current = (self.current + 1) % SLIDE_COUNT;
                SlideStep::Show(self.current)
            },
            SlideButton::Skip => SlideStep::Leave,
        }
    }
}

/// `Previous` undoes `Next` and `Next` undoes `Previous`, and neither leaves
/// the slides.
pub proof fn lemma_previous_and_next_are_inverse(index: nat)
    requires
        index < SLIDE_COUNT,
    ensures
        spec_next_slide(index) < SLIDE_COUNT,
        spec_previous_slide(index) < SLIDE_COUNT,
        spec_previous_slide(spec_next_slide(index)) == index,
        spec_next_slide(spec_previous_slide(index)) == index,
{
}

} // verus!
