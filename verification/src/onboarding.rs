use vstd::prelude::*;

verus! {

/// The steps of the linear first-run wizard that acquires a credential.
#[derive(Debug, Clone)]
pub enum OnboardingStep {
    Welcome,
    Instructions,
    ApiKeyEntry,
    Validating,
    Success,
    Failed { error: String },
}

/// The wizard's state: the current step, the credential being typed, and
/// the spinner shown while validating.
pub struct OnboardingState {
    pub step: OnboardingStep,
    pub api_key_input: String,
    pub key_hidden: bool,
    pub spinner_frame: usize,
    pub should_quit: bool,
}

impl OnboardingState {
    /// The spinner frame stays inside its ten-glyph cycle.
    pub open spec fn wf(&self) -> bool {
        self.spinner_frame < 10
    }

    /// A fresh wizard at the welcome step, with a hidden, empty credential.
    pub fn new() -> (r: Self)
        ensures
            r.wf(),
            r.step is Welcome,
            r.api_key_input@ == Seq::<char>::empty(),
            r.key_hidden,
            r.spinner_frame == 0,
            !r.should_quit,
    {
        OnboardingState {
            step: OnboardingStep::Welcome,
            api_key_input: String::new(),
            key_hidden: true,
            spinner_frame: 0,
            should_quit: false,
        }
    }

    /// Advances the spinner to its next of ten frames.
    pub fn tick_spinner(&mut self)
        requires
            old(self).wf(),
        ensures
            final(self).wf(),
            *final(self) == (OnboardingState {
                spinner_frame: ((old(self).spinner_frame + 1) % 10) as usize,
                ..*old(self)
            }),
    {
        self.spinner_frame = (self.spinner_frame + 1) % 10;
    }

    /// The spinner glyph for the current animation frame.
    pub fn spinner_char(&self) -> (r: char)
        requires
            self.wf(),
        ensures
            r == crate::model::Model::spec_spinner_char(self.spinner_frame as int),
    {
        let i = self.spinner_frame;
        if i == 0 {
            '⠋'
        } else if i == 1 {
            '⠙'
        } else if i == 2 {
            '⠹'
        } else if i == 3 {
            '⠸'
        } else if i == 4 {
            '⠼'
        } else if i == 5 {
            '⠴'
        } else if i == 6 {
            '⠦'
        } else if i == 7 {
            '⠧'
        } else if i == 8 {
            '⠇'
        } else {
            '⠏'
        }
    }

    /// How many of the four progress dots are lit at the current step.
    pub open spec fn spec_progress(&self) -> int {
        match self.step {
            OnboardingStep::Welcome => 1,
            OnboardingStep::Instructions => 2,
            OnboardingStep::ApiKeyEntry => 3,
            OnboardingStep::Validating => 4,
            OnboardingStep::Success => 4,
            OnboardingStep::Failed { .. } => 4,
        }
    }

    /// The four progress dots: the first `spec_progress` are lit.
    pub fn progress_dots(&self) -> (r: [bool; 4])
        ensures
            forall|i: int| 0 <= i < 4 ==> r@[i] == (i < self.spec_progress()),
    {
        let r = match &self.step {
            OnboardingStep::Welcome => [true, false, false, false],
            OnboardingStep::Instructions => [true, true, false, false],
            OnboardingStep::ApiKeyEntry => [true, true, true, false],
            OnboardingStep::Validating => [true, true, true, true],
            OnboardingStep::Success => [true, true, true, true],
            OnboardingStep::Failed { .. } => [true, true, true, true],
        };
        r
    }

    /// The credential as shown on screen: empty stays empty, a hidden key
    /// shows one asterisk per character, a revealed key shows itself.
    pub fn displayed_key(&self) -> (r: String)
        ensures
            self.api_key_input@.len() == 0 ==> r@ == Seq::<char>::empty(),
            self.api_key_input@.len() > 0 && self.key_hidden ==> r@.len()
                == self.api_key_input@.len() && (forall|i: int| 0 <= i < r@.len() ==> r@[i] == '*'),
            self.api_key_input@.len() > 0 && !self.key_hidden ==> r@ == self.api_key_input@,
    {
        if self.api_key_input.as_str().is_empty() {
            String::new()
        } else if self.key_hidden {
            let n = self.api_key_input.as_str().unicode_len();
            let mut s = String::new();
            let mut i: usize = 0;
            proof {
                reveal_strlit("*");
            }
            while i < n
                invariant
                    0 <= i <= n,
                    s@.len() == i as int,
                    forall|j: int| 0 <= j < s@.len() ==> s@[j] == '*',
                    "*"@.len() == 1 && "*"@[0] == '*',
                decreases n - i,
            {
                s.append("*");
                i = i + 1;
            }
            s
        } else {
            self.api_key_input.clone()
        }
    }
}

} // verus!
