//! Cutscenes: slides with captions shown for set times, then a move to the
//! next screen.

use vstd::prelude::*;

use crate::states::{DayState, GameState, PauseState};
use crate::timer::{spec_tick, Timer, TimerMode, NANOS_PER_MILLI};

verus! {

/// One caption image and how long it stays up, in milliseconds.
#[derive(Debug, Clone, Copy)]
pub struct CaptionDescriptor {
    pub caption_image_path: &'static str,
    pub duration_millis: u64,
}

/// A slide image with its narration and captions.
#[derive(Debug, Clone)]
pub struct SlideDescriptor {
    pub slide_image_path: &'static str,
    pub audio_path: &'static str,
    pub captions: Vec<CaptionDescriptor>,
}

/// The screen, pause state and phase that a cutscene leads to.
#[derive(Debug, Clone, Copy, PartialEq, Eq, Structural)]
pub struct NextScreen {
    pub game: GameState,
    pub pause: PauseState,
    pub day: DayState,
}

/// A cutscene and the screen, pause state and phase it leads to, if any.
#[derive(Debug, Clone)]
pub struct CutsceneDescriptor {
    pub slides: Vec<SlideDescriptor>,
    pub next_screen: Option<NextScreen>,
}

/// A caption that can be timed.
pub open spec fn caption_ok(c: CaptionDescriptor) -> bool {
    0 < c.duration_millis <= u64::MAX / NANOS_PER_MILLI
}

impl CutsceneDescriptor {
    /// There is a slide, every slide has a caption, and every caption has a
    /// positive duration.
    pub open spec fn wf(&self) -> bool {
        &&& self.slides@.len() > 0
        &&& forall|i: int|
            0 <= i < self.slides@.len() ==> (#[trigger] self.slides@[i]).captions@.len() > 0
                && forall|k: int|
                0 <= k < self.slides@[i].captions@.len() ==> caption_ok(
                    #[trigger] self.slides@[i].captions@[k],
                )
    }

    /// The caption at slide `s`, position `c`.
    pub open spec fn caption(&self, s: int, c: int) -> CaptionDescriptor {
        self.slides@[s].captions@[c]
    }
}

/// Where playback stands: the slide and caption shown, the caption's timer,
/// and whether the slide is on screen.
#[derive(Debug, Clone, Copy, PartialEq, Eq, Structural)]
pub struct PlayingCutscene {
    pub current_slide: usize,
    pub current_caption: usize,
    pub timer: Timer,
    pub showing: bool,
}

/// The timer for caption `c`.
pub open spec fn spec_caption_timer(c: CaptionDescriptor) -> Timer {
    Timer::from_millis_spec(c.duration_millis, TimerMode::Once)
}

/// What one tick of playback did.
#[derive(Debug, Clone, Copy, PartialEq, Eq, Structural)]
pub enum CutsceneStep {
    /// Nothing changed on screen.
    Waiting,
    /// The next caption, possibly on the next slide, is up.
    Advanced,
    /// The last caption ran out: the cutscene is over, and leads to this screen.
    Finished(Option<NextScreen>),
}

/// The timer for a caption.
fn caption_timer(c: &CaptionDescriptor) -> (r: Timer)
    requires
        caption_ok(*c),
    ensures
        r.wf(),
        r == spec_caption_timer(*c),
{
    Timer::from_millis(c.duration_millis, TimerMode::Once)
}

/// Playback `p` of `d` after moving on from its caption, and whether that
/// ended the cutscene: the next caption of the slide, else the first caption
/// of the next slide, each with a fresh timer; after the last caption of the
/// last slide, off screen.
pub open spec fn spec_advance(p: PlayingCutscene, d: CutsceneDescriptor) -> (PlayingCutscene, bool) {
    let s = p.current_slide as int;
    let c = p.current_caption as int;
    if c + 1 < d.slides@[s].captions@.len() {
        (PlayingCutscene {
            current_caption: (c + 1) as usize,
            timer: spec_caption_timer(d.caption(s, c + 1)),
            ..p
        }, false)
    } else if s + 1 < d.slides@.len() {
        (PlayingCutscene {
            current_slide: (s + 1) as usize,
            current_caption: 0,
            timer: spec_caption_timer(d.caption(s + 1, 0)),
            ..p
        }, false)
    } else {
        (PlayingCutscene { showing: false, ..p }, true)
    }
}

impl PlayingCutscene {
    /// The position and timer are those of a caption of `d`.
    pub open spec fn wf(&self, d: CutsceneDescriptor) -> bool {
        &&& d.wf()
        &&& self.current_slide < d.slides@.len()
        &&& self.current_caption < d.slides@[self.current_slide as int].captions@.len()
        &&& self.timer.wf()
    }

    /// Playback of `d`, at its first caption, not yet on screen.
    pub fn new(d: &CutsceneDescriptor) -> (r: PlayingCutscene)
        requires
            d.wf(),
        ensures
            r.wf(*d),
            r == (PlayingCutscene {
                current_slide: 0,
                current_caption: 0,
                timer: spec_caption_timer(d.caption(0, 0)),
                showing: false,
            }),
    {
        proof {
            assert(d.slides@[0].captions@.len() > 0);
            assert(caption_ok(d.slides@[0].captions@[0]));
        }
        let timer = caption_timer(&d.slides[0].captions[0]);
        PlayingCutscene { current_slide: 0, current_caption: 0, timer, showing: false }
    }

    /// Whether the cutscene is on screen.
    pub fn playing(&self) -> (r: bool)
        ensures
            r == self.showing,
    {
        self.showing
    }

    /// Puts the first slide and its first caption on screen.
    pub fn start(&mut self, d: &CutsceneDescriptor)
        requires
            d.wf(),
        ensures
            final(self).wf(*d),
            *final(self) == (PlayingCutscene {
                current_slide: 0,
                current_caption: 0,
                timer: spec_caption_timer(d.caption(0, 0)),
                showing: true,
            }),
    {
        *self = PlayingCutscene::new(d);
        self.showing = true;
    }

    /// Takes the cutscene off screen.
    pub fn stop(&mut self)
        ensures
            *final(self) == (PlayingCutscene { showing: false, ..*old(self) }),
    {
        self.showing = false;
    }

    /// Moves on from the current caption: to the next caption of the slide,
    /// else to the first caption of the next slide, each with a fresh timer;
    /// after the last caption of the last slide playback stops and the result
    /// is `true`.
    pub fn advance_slide(&mut self, d: &CutsceneDescriptor) -> (r: bool)
        requires
            old(self).wf(*d),
        ensures
            final(self).wf(*d),
            (*final(self), r) == spec_advance(*old(self), *d),
    {
        let s = self.current_slide;
        let c = self.current_caption;
        let n = d.slides[s].captions.len();
        proof {
            assert(d.slides@[s as int].captions@.len() > 0);
            assert(c < n);
        }
        if c + 1 < n {
            proof {
                assert(caption_ok(d.slides@[s as int].captions@[c + 1]));
            }
            self.current_caption = c + 1;
            self.timer = caption_timer(&d.slides[s].captions[c + 1]);
            false
        } else if s < d.slides.len() - 1 {
            proof {
                assert(d.slides@[s + 1].captions@.len() > 0);
                assert(caption_ok(d.slides@[s + 1].captions@[0]));
            }
            self.current_slide = s + 1;
            self.current_caption = 0;
            self.timer = caption_timer(&d.slides[s + 1].captions[0]);
            false
        } else {
            self.stop();
            true
        }
    }

    /// One tick of playback: while on screen, the caption's timer advances by
    /// `delta` nanoseconds, and the tick it runs out playback moves on; when
    /// the last caption is done, the result carries the screen to go to.
    pub fn play(&mut self, d: &CutsceneDescriptor, delta: u64) -> (r: CutsceneStep)
        requires
            old(self).wf(*d),
        ensures
            final(self).wf(*d),
            ({
                let ticked = PlayingCutscene { timer: spec_tick(old(self).timer, delta), ..*old(self) };
                let moved = spec_advance(ticked, *d);
                if !old(self).showing {
                    r == CutsceneStep::Waiting && *final(self) == *old(self)
                } else if ticked.timer.times_finished_this_tick == 0 {
                    r == CutsceneStep::Waiting && *final(self) == ticked
                } else {
                    &&& *final(self) == moved.0
                    &&& r == (if moved.1 {
                        CutsceneStep::Finished(d.next_screen)
                    } else {
                        CutsceneStep::Advanced
                    })
                }
            }),
    {
        if !self.showing {
            return CutsceneStep::Waiting;
        }
        self.timer.tick(delta);
        if !self.timer.just_finished() {
            return CutsceneStep::Waiting;
        }
        if self.advance_slide(d) {
            CutsceneStep::Finished(d.next_screen)
        } else {
            CutsceneStep::Advanced
        }
    }
}

/// A caption shown for `millis` milliseconds.
fn caption(path: &'static str, millis: u64) -> (r: CaptionDescriptor)
    ensures
        r.caption_image_path@ == path@,
        r.duration_millis == millis,
{
    CaptionDescriptor { caption_image_path: path, duration_millis: millis }
}

/// A slide with its narration and captions.
fn slide(image: &'static str, audio: &'static str, captions: Vec<CaptionDescriptor>) -> (r: SlideDescriptor)
    ensures
        r.slide_image_path@ == image@,
        r.audio_path@ == audio@,
        r.captions@ == captions@,
{
    SlideDescriptor { slide_image_path: image, audio_path: audio, captions }
}

/// The opening story, which leads to a paused first night.
pub fn intro_cutscene() -> (r: CutsceneDescriptor)
    ensures
        r.wf(),
        r.slides@.len() == 6,
        r.next_screen == Some(NextScreen { game: GameState::Game, pause: PauseState::Paused, day: DayState::Night }),
{
    let slides = vec![
        slide(
            "intro/intro0.png",
            "audio/intro/intro1.ogg",
            vec![caption("intro/cc0.png", 3000), caption("intro/cc1.png", 2800), caption("intro/cc2.png", 2750)],
        ),
        slide(
            "intro/intro1.png",
            "audio/intro/intro2.ogg",
            vec![caption("intro/cc3.png", 1600)],
        ),
        slide(
            "intro/intro2.png",
            "audio/intro/intro3.ogg",
            vec![caption("intro/cc4.png", 1400), caption("intro/cc5.png", 2900), caption("intro/cc6.png", 1400)],
        ),
        slide(
            "intro/intro3.png",
            "audio/intro/intro4.ogg",
            vec![caption("intro/cc7.png", 2000), caption("intro/cc8.png", 2000), caption("intro/cc9.png", 2000)],
        ),
        slide(
            "intro/intro4.png",
            "audio/intro/intro5.ogg",
            vec![caption("intro/cc10.png", 1900), caption("intro/cc11.png", 1900), caption("intro/cc12.png", 2300)],
        ),
        slide(
            "intro/intro5.png",
            "audio/intro/intro6.ogg",
            vec![caption("intro/cc13.png", 6100), caption("intro/cc14.png", 3000)],
        ),
    ];
    let r = CutsceneDescriptor {
        slides,
        next_screen: Some(NextScreen { game: GameState::Game, pause: PauseState::Paused, day: DayState::Night }),
    };
    assert(r.wf());
    r
}

/// The closing story after a jackpot, which leads to a paused morning.
pub fn outro_cutscene() -> (r: CutsceneDescriptor)
    ensures
        r.wf(),
        r.slides@.len() == 11,
        r.next_screen == Some(NextScreen { game: GameState::Game, pause: PauseState::Paused, day: DayState::Morning }),
{
    let slides = vec![
        slide(
            "outro/outro1.png",
            "audio/outro/Dont_do_drugs_-_MC_Slang-01.ogg",
            vec![caption("sprites/nothing.png", 4600)],
        ),
        slide(
            "outro/outro6.png",
            "audio/outro/Dont_do_drugs_-_MC_Slang-02.ogg",
            vec![caption("sprites/nothing.png", 14500)],
        ),
        slide(
            "outro/outro2.png",
            "audio/outro/Dont_do_drugs_-_MC_Slang-03.ogg",
            vec![caption("sprites/nothing.png", 4700)],
        ),
        slide(
            "outro/outro5.png",
            "audio/outro/Dont_do_drugs_-_MC_Slang-04.ogg",
            vec![caption("sprites/nothing.png", 12500)],
        ),
        slide(
            "outro/outro4.png",
            "audio/outro/Dont_do_drugs_-_MC_Slang-05.ogg",
            vec![caption("sprites/nothing.png", 2800)],
        ),
        slide(
            "outro/outro6.png",
            "audio/outro/Dont_do_drugs_-_MC_Slang-06.ogg",
            vec![caption("sprites/nothing.png", 3400)],
        ),
        slide(
            "outro/outro1.png",
            "audio/outro/Dont_do_drugs_-_MC_Slang-07.ogg",
            vec![caption("sprites/nothing.png", 7500)],
        ),
        slide(
            "outro/outro7.png",
            "audio/outro/Dont_do_drugs_-_MC_Slang-08.ogg",
            vec![caption("sprites/nothing.png", 7000)],
        ),
        slide(
            "outro/outro9.png",
            "audio/outro/Dont_do_drugs_-_MC_Slang-09.ogg",
            vec![caption("sprites/nothing.png", 12800)],
        ),
        slide(
            "outro/outro4.png",
            "audio/outro/Dont_do_drugs_-_MC_Slang-10.ogg",
            vec![caption("sprites/nothing.png", 1600)],
        ),
        slide(
            "outro/outro6.png",
            "audio/outro/Dont_do_drugs_-_MC_Slang-11.ogg",
            vec![caption("sprites/nothing.png", 10100)],
        ),
    ];
    let r = CutsceneDescriptor {
        slides,
        next_screen: Some(NextScreen { game: GameState::Game, pause: PauseState::Paused, day: DayState::Morning }),
    };
    assert(r.wf());
    r
}

} // verus!
