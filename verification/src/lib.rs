//! Turns author-written documents — markdown behind a fenced block of metadata — into
//! HTML fragments that are safe to embed in a page.
//!
//! A document starts with its front matter between two fence lines; the rest is the
//! markdown body ([`frontmatter`], [`document`]). Rendering tokenizes the body
//! ([`event`]), gives every heading an id and a link to itself and highlights fenced code
//! ([`rewrite`], [`anchor`], [`highlight`]), writes the events as HTML and passes the
//! markup through an allow-list sanitizer ([`render`], [`sanitize`]).
//!
//! Beside the pipeline stand the rules of the site that serves the documents: its
//! settings ([`config`]), the header of its pages ([`layout`]), the answer to a message
//! from its contact form ([`contact`]), and bodies in base64 ([`body`]).
pub mod text;

pub mod event;

pub mod anchor;

pub mod highlight;

pub mod sanitize;

pub mod rewrite;

pub mod render;

pub mod frontmatter;

pub mod document;

pub mod config;

pub mod layout;

pub mod contact;

pub mod body;
