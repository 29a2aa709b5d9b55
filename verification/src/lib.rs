//! Batch loading and reconciliation of gazetteer flat files.
//!
//! A source file is a list of tab-separated lines. A domain ([`batch`]) maps
//! each line to a record ([`line`], [`number`], [`text`]), leaves out what it
//! does not want, and gathers the records column by column into batches that
//! are stored with one statement each ([`bulk`], [`load`], [`source`]).
//! The domains are [`admins`], [`alt_names`], [`cities`], [`countries`],
//! [`lang_codes`] and [`scopes`]; places and scopes share one layout
//! ([`feature`]).
//!
//! Alternate names are too many to be aggregated at once. Their stream is cut
//! into chunks, and only where the feature changes ([`chunk`]), so that each
//! chunk can be aggregated on its own ([`merge`]).
//!
//! After loading, the tables are reconciled: placeholders go and names are
//! attached ([`enrich`]), duplicates collapse ([`dedup`]), every entity gets
//! its canonical name as a name ([`names`]), and aliases are added
//! ([`aliases`]). What is left to the store is given as statements ([`sql`])
//! that are run in order ([`plan`]).
//!
//! A run is set up from the command line and the configuration file
//! ([`setup`]), and ends with a report of what went wrong, if anything did
//! ([`err`]).
pub mod admins;
pub mod aliases;
pub mod alt_names;
pub mod batch;
pub mod bulk;
pub mod chunk;
pub mod cities;
pub mod countries;
pub mod dedup;
pub mod enrich;
pub mod err;
pub mod feature;
pub mod lang_codes;
pub mod line;
pub mod load;
pub mod merge;
pub mod names;
pub mod number;
pub mod plan;
pub mod scopes;
pub mod setup;
pub mod source;
pub mod sql;
pub mod text;
