//! Markers for the menu and heads-up display objects.

use vstd::prelude::*;

verus! {

/// Marks the objects of the main menu.
#[derive(Debug, Clone, Copy, PartialEq, Eq, Structural)]
pub struct Menu;

/// Marks the objects of the in-game display.
#[derive(Debug, Clone, Copy, PartialEq, Eq, Structural)]
pub struct Ui;

/// Marks the text box that shows the companion's line.
#[derive(Debug, Clone, Copy, PartialEq, Eq, Structural)]
pub struct DialogueText;

/// Marks the button that starts a new game.
#[derive(Debug, Clone, Copy, PartialEq, Eq, Structural)]
pub struct NewGameButton;

/// Marks the button that resumes from the save record.
#[derive(Debug, Clone, Copy, PartialEq, Eq, Structural)]
pub struct LoadGameButton;

/// Marks the button that quits.
#[derive(Debug, Clone, Copy, PartialEq, Eq, Structural)]
pub struct QuitGameButton;

/// Groups the systems that change the screen effect settings.
#[derive(Debug, Clone, Copy, PartialEq, Eq, Structural, Hash)]
pub struct VFXChangeSystemSet;

} // verus!
