use vstd::prelude::*;

use crate::environment::Environment;

verus! {

/// A configuration read field by field from a backend. The `Config` derive
/// writes `parse` by the rules in `crate::attributes`.
pub trait Config: Sized {
    /// Reads the configuration from `backend`.
    fn parse<T: Environment>(backend: T) -> Self;

    /// Reads the configuration from a default-built backend of type `T`.
    fn parse_env<T: Environment + Default>() -> (config: Self)
        ensures
            exists|backend: T|
                call_ensures(T::default, (), backend) && call_ensures(
                    Self::parse::<T>,
                    (backend,),
                    config,
                ),
    {
        Self::parse(T::default())
    }
}

} // verus!
