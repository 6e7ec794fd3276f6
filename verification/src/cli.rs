//! The command-line interface: the commands the program accepts.

use vstd::prelude::*;

verus! {

/// What to do with the screen layout.
#[derive(Clone, Debug, PartialEq, Eq)]
pub enum LayoutAction {
    Show,
    /// Set the edge from one device to another.
    SetEdge { from: String, to: String, direction: String },
    Reset,
}

/// What to do with the configuration.
#[derive(Clone, Debug, PartialEq, Eq)]
pub enum ConfigAction {
    Show,
    /// Set one configuration key.
    SetValue { key: String, value: String },
    Reset,
}

#[derive(Clone, Debug, PartialEq, Eq)]
pub enum Commands {
    /// Start a node that announces itself and joins the desktop.
    Start { name: String, port: u16, primary: bool },
    /// Connect to a node at a known address.
    Connect { address: String, port: u16 },
    Status,
    Gui,
    Layout { action: LayoutAction },
    Config { action: ConfigAction },
}

#[derive(Clone, Debug, PartialEq, Eq)]
pub struct Cli {
    pub command: Commands,
}

} // verus!
