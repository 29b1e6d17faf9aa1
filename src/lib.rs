//! Packaging of a build context into a filtered, compressed archive, parsing of
//! image references, and the decisions taken while draining the event streams
//! of an image build and of a registry push.
pub mod api_types;
pub mod archive;
pub mod cli;
pub mod git_shell;
pub mod ignore;
pub mod image_ref;
pub mod models;
pub mod pipeline;
pub mod stream;
pub mod text;
