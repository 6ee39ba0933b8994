//! Type-safe HTML tags, without macros.
//!
//! A document is a tree of [`document_tree::Node`]s.  Each node owns the
//! description of one markup element — its tag name, whether the tag emits
//! opening and closing markers, and its tag-specific attributes — together
//! with optional text, a deduplicated class list, an ordered list of global
//! attributes, and an ordered list of child nodes.  Rendering serialises the
//! tree depth-first into markup text.

/// The tree: nodes, builders, and the renderer.
pub mod document_tree;

/// Global attributes that may be attached to any node.
pub mod global_attributes;

/// The conversion capability: turning tags and nodes into tree nodes.
pub mod science_lab;

/// Verified string helpers used by attribute formatting and class handling.
pub mod strutil;

/// One module per element kind, and the tag capability they share.
pub mod tags;

/// HTML document templates.
pub mod template;
