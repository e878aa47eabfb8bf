//! Key, page and layout tables for the on-screen keyboard.  The tables are
//! plain data: reading them from disk and feeding them to the widget layer is
//! the caller's business.

use std::collections::HashMap;
use vstd::prelude::*;

verus! {

/// The whole keyboard configuration.
pub struct Config {
    pub layout: String,
    pub key_spacing: i32,
    pub padding: i32,
    pub width: i32,
    pub layouts: HashMap<String, HashMap<String, String>>,
    pub keys: HashMap<String, KeyConfig>,
    pub pages: HashMap<String, PageConfig>,
}

/// How one key looks and what it inserts.
#[derive(Clone)]
pub struct KeyConfig {
    /// The character to insert when the key is pressed (also shown on the button).
    pub char: String,
    /// The character to insert while shift is active (also shown on the button).
    pub upper: Option<String>,
    /// CSS classes to apply to the key's button.
    pub classes: Option<Vec<String>>,
    /// An alternative label to show on the button, whatever the layer.
    pub label: Option<String>,
    /// An icon to display in place of the label.
    pub icon: Option<String>,
}

impl KeyConfig {
    /// The default configuration for a simple key: it inserts `c` and has no
    /// upper form, classes, label or icon.
    pub fn new(c: &str) -> (k: Self)
        ensures
            k.char@ == c@,
            k.upper is None,
            k.classes is None,
            k.label is None,
            k.icon is None,
    {
        KeyConfig { char: c.to_owned(), upper: None, classes: None, icon: None, label: None }
    }
}

/// One page of the keyboard: its rows of key names.
pub struct PageConfig {
    pub keys: Vec<String>,
}

} // verus!
