pub(crate) mod private;
