//! The reactive core of an image element: it keeps the element's cached
//! resource reference in step with the `src` attribute, says which prefetch
//! request each change owes the image cache, and turns a content box reported
//! by layout into the element's pixel width and height.

pub mod geometry;
pub mod attribute;
pub mod resource;
pub mod image_cache_task;
pub mod layout_interface;
pub mod htmlimageelement;
