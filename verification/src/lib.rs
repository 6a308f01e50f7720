//! Client-side logic of the clubs web application: the state of the
//! "new club" form, of the home page and of the not-found page, kept apart
//! from the browser so that each transition can be stated and proved.
pub mod types;
pub mod markup;
pub mod pg_new_club;
pub mod home;
pub mod notfound;
