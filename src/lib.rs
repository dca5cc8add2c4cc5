//! A segmented, colourised shell status line: a rendering engine that joins
//! styled segments with separator glyphs, and the providers that feed it.

pub mod terminal;
pub mod text;
pub mod powerline;
pub mod modules;
pub mod git;
pub mod locate;
pub mod distrobox;
pub mod keyenv;
pub mod flatcwd;

pub use powerline::{Powerline, Style};
pub use terminal::{BgColor, Color, FgColor};
pub use modules::Module;
pub use git::{Git, GitScheme, GitStats};
pub use distrobox::{Distrobox, DistroboxScheme};
pub use keyenv::{KeyEnv, KeyEnvScheme};
pub use flatcwd::{FlatCwd, FlatCwdScheme};
