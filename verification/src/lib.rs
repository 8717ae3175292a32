//! A small unidirectional-data-flow UI runtime: messages are folded into a model by a
//! reducer, a view derives a virtual element tree from the model, and a serializer
//! writes such a tree as markup text.

pub mod markup;
pub mod model;
pub mod msg;
pub mod ordered_map;
pub mod orders;
mod seed_api;
pub mod text;
pub mod update;
pub mod view;
pub mod vnode;
