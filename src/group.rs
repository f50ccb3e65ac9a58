//! Groups of sibling targets that resolve as one target.
//!
//! A tuple of targets that share their world and their error type is a target
//! itself. Its members are built one after another, from the first to the
//! last, each from the same world; the first failure ends the construction and
//! is its outcome, and no later member is built.

use vstd::prelude::*;
use crate::resolve::FromWorld;

verus! {

impl<Dep0, Dep1> FromWorld for (Dep0, Dep1) where
    Dep0: FromWorld,
    Dep1: for<'a> FromWorld<World<'a> = Dep0::World<'a>, Error = Dep0::Error>,
{
    type Error = Dep0::Error;
    type World<'a> = Dep0::World<'a>;

    /// Some outcome of each member in turn, up to the first failure.
    open spec fn built(world: &Self::World<'_>, r: Result<Self, Self::Error>) -> bool {
        exists|r0: Result<Dep0, Dep0::Error>|
            #[trigger] Dep0::built(world, r0) && match r0 {
                Err(e) => r == Err::<Self, Dep0::Error>(e),
                Ok(v0) => {
                    exists|r1: Result<Dep1, Dep0::Error>|
                        #[trigger] Dep1::built(world, r1) && match r1 {
                            Err(e) => r == Err::<Self, Dep0::Error>(e),
                            Ok(v1) => r == Ok::<Self, Dep0::Error>((v0, v1)),
                        }
                },
            }
    }

    fn from_world(world: &Self::World<'_>) -> (r: Result<Self, Self::Error>) {
        let v0 = match Dep0::from_world(world) {
            Ok(v) => v,
            Err(e) => return Err(e),
        };
        let v1 = match Dep1::from_world(world) {
            Ok(v) => v,
            Err(e) => return Err(e),
        };
        Ok((v0, v1))
    }
}

impl<Dep0, Dep1, Dep2> FromWorld for (Dep0, Dep1, Dep2) where
    Dep0: FromWorld,
    Dep1: for<'a> FromWorld<World<'a> = Dep0::World<'a>, Error = Dep0::Error>,
    Dep2: for<'a> FromWorld<World<'a> = Dep0::World<'a>, Error = Dep0::Error>,
{
    type Error = Dep0::Error;
    type World<'a> = Dep0::World<'a>;

    /// Some outcome of each member in turn, up to the first failure.
    open spec fn built(world: &Self::World<'_>, r: Result<Self, Self::Error>) -> bool {
        exists|r0: Result<Dep0, Dep0::Error>|
            #[trigger] Dep0::built(world, r0) && match r0 {
                Err(e) => r == Err::<Self, Dep0::Error>(e),
                Ok(v0) => {
                    exists|r1: Result<Dep1, Dep0::Error>|
                        #[trigger] Dep1::built(world, r1) && match r1 {
                            Err(e) => r == Err::<Self, Dep0::Error>(e),
                            Ok(v1) => {
                                exists|r2: Result<Dep2, Dep0::Error>|
                                    #[trigger] Dep2::built(world, r2) && match r2 {
                                        Err(e) => r == Err::<Self, Dep0::Error>(e),
                                        Ok(v2) => r == Ok::<Self, Dep0::Error>((v0, v1, v2)),
                                    }
                            },
                        }
                },
            }
    }

    fn from_world(world: &Self::World<'_>) -> (r: Result<Self, Self::Error>) {
        let v0 = match Dep0::from_world(world) {
            Ok(v) => v,
            Err(e) => return Err(e),
        };
        let v1 = match Dep1::from_world(world) {
            Ok(v) => v,
            Err(e) => return Err(e),
        };
        let v2 = match Dep2::from_world(world) {
            Ok(v) => v,
            Err(e) => return Err(e),
        };
        Ok((v0, v1, v2))
    }
}

impl<Dep0, Dep1, Dep2, Dep3> FromWorld for (Dep0, Dep1, Dep2, Dep3) where
    Dep0: FromWorld,
    Dep1: for<'a> FromWorld<World<'a> = Dep0::World<'a>, Error = Dep0::Error>,
    Dep2: for<'a> FromWorld<World<'a> = Dep0::World<'a>, Error = Dep0::Error>,
    Dep3: for<'a> FromWorld<World<'a> = Dep0::World<'a>, Error = Dep0::Error>,
{
    type Error = Dep0::Error;
    type World<'a> = Dep0::World<'a>;

    /// Some outcome of each member in turn, up to the first failure.
    open spec fn built(world: &Self::World<'_>, r: Result<Self, Self::Error>) -> bool {
        exists|r0: Result<Dep0, Dep0::Error>|
            #[trigger] Dep0::built(world, r0) && match r0 {
                Err(e) => r == Err::<Self, Dep0::Error>(e),
                Ok(v0) => {
                    exists|r1: Result<Dep1, Dep0::Error>|
                        #[trigger] Dep1::built(world, r1) && match r1 {
                            Err(e) => r == Err::<Self, Dep0::Error>(e),
                            Ok(v1) => {
                                exists|r2: Result<Dep2, Dep0::Error>|
                                    #[trigger] Dep2::built(world, r2) && match r2 {
                                        Err(e) => r == Err::<Self, Dep0::Error>(e),
                                        Ok(v2) => {
                                            exists|r3: Result<Dep3, Dep0::Error>|
                                                #[trigger] Dep3::built(world, r3) && match r3 {
                                                    Err(e) => r == Err::<Self, Dep0::Error>(e),
                                                    Ok(v3) => r == Ok::<Self, Dep0::Error>((v0, v1, v2, v3)),
                                                }
                                        },
                                    }
                            },
                        }
                },
            }
    }

    fn from_world(world: &Self::World<'_>) -> (r: Result<Self, Self::Error>) {
        let v0 = match Dep0::from_world(world) {
            Ok(v) => v,
            Err(e) => return Err(e),
        };
        let v1 = match Dep1::from_world(world) {
            Ok(v) => v,
            Err(e) => return Err(e),
        };
        let v2 = match Dep2::from_world(world) {
            Ok(v) => v,
            Err(e) => return Err(e),
        };
        let v3 = match Dep3::from_world(world) {
            Ok(v) => v,
            Err(e) => return Err(e),
        };
        Ok((v0, v1, v2, v3))
    }
}

impl<Dep0, Dep1, Dep2, Dep3, Dep4> FromWorld for (Dep0, Dep1, Dep2, Dep3, Dep4) where
    Dep0: FromWorld,
    Dep1: for<'a> FromWorld<World<'a> = Dep0::World<'a>, Error = Dep0::Error>,
    Dep2: for<'a> FromWorld<World<'a> = Dep0::World<'a>, Error = Dep0::Error>,
    Dep3: for<'a> FromWorld<World<'a> = Dep0::World<'a>, Error = Dep0::Error>,
    Dep4: for<'a> FromWorld<World<'a> = Dep0::World<'a>, Error = Dep0::Error>,
{
    type Error = Dep0::Error;
    type World<'a> = Dep0::World<'a>;

    /// Some outcome of each member in turn, up to the first failure.
    open spec fn built(world: &Self::World<'_>, r: Result<Self, Self::Error>) -> bool {
        exists|r0: Result<Dep0, Dep0::Error>|
            #[trigger] Dep0::built(world, r0) && match r0 {
                Err(e) => r == Err::<Self, Dep0::Error>(e),
                Ok(v0) => {
                    exists|r1: Result<Dep1, Dep0::Error>|
                        #[trigger] Dep1::built(world, r1) && match r1 {
                            Err(e) => r == Err::<Self, Dep0::Error>(e),
                            Ok(v1) => {
                                exists|r2: Result<Dep2, Dep0::Error>|
                                    #[trigger] Dep2::built(world, r2) && match r2 {
                                        Err(e) => r == Err::<Self, Dep0::Error>(e),
                                        Ok(v2) => {
                                            exists|r3: Result<Dep3, Dep0::Error>|
                                                #[trigger] Dep3::built(world, r3) && match r3 {
                                                    Err(e) => r == Err::<Self, Dep0::Error>(e),
                                                    Ok(v3) => {
                                                        exists|r4: Result<Dep4, Dep0::Error>|
                                                            #[trigger] Dep4::built(world, r4) && match r4 {
                                                                Err(e) => r == Err::<Self, Dep0::Error>(e),
                                                                Ok(v4) => r == Ok::<Self, Dep0::Error>((v0, v1, v2, v3, v4)),
                                                            }
                                                    },
                                                }
                                        },
                                    }
                            },
                        }
                },
            }
    }

    fn from_world(world: &Self::World<'_>) -> (r: Result<Self, Self::Error>) {
        let v0 = match Dep0::from_world(world) {
            Ok(v) => v,
            Err(e) => return Err(e),
        };
        let v1 = match Dep1::from_world(world) {
            Ok(v) => v,
            Err(e) => return Err(e),
        };
        let v2 = match Dep2::from_world(world) {
            Ok(v) => v,
            Err(e) => return Err(e),
        };
        let v3 = match Dep3::from_world(world) {
            Ok(v) => v,
            Err(e) => return Err(e),
        };
        let v4 = match Dep4::from_world(world) {
            Ok(v) => v,
            Err(e) => return Err(e),
        };
        Ok((v0, v1, v2, v3, v4))
    }
}

impl<Dep0, Dep1, Dep2, Dep3, Dep4, Dep5> FromWorld for (Dep0, Dep1, Dep2, Dep3, Dep4, Dep5) where
    Dep0: FromWorld,
    Dep1: for<'a> FromWorld<World<'a> = Dep0::World<'a>, Error = Dep0::Error>,
    Dep2: for<'a> FromWorld<World<'a> = Dep0::World<'a>, Error = Dep0::Error>,
    Dep3: for<'a> FromWorld<World<'a> = Dep0::World<'a>, Error = Dep0::Error>,
    Dep4: for<'a> FromWorld<World<'a> = Dep0::World<'a>, Error = Dep0::Error>,
    Dep5: for<'a> FromWorld<World<'a> = Dep0::World<'a>, Error = Dep0::Error>,
{
    type Error = Dep0::Error;
    type World<'a> = Dep0::World<'a>;

    /// Some outcome of each member in turn, up to the first failure.
    open spec fn built(world: &Self::World<'_>, r: Result<Self, Self::Error>) -> bool {
        exists|r0: Result<Dep0, Dep0::Error>|
            #[trigger] Dep0::built(world, r0) && match r0 {
                Err(e) => r == Err::<Self, Dep0::Error>(e),
                Ok(v0) => {
                    exists|r1: Result<Dep1, Dep0::Error>|
                        #[trigger] Dep1::built(world, r1) && match r1 {
                            Err(e) => r == Err::<Self, Dep0::Error>(e),
                            Ok(v1) => {
                                exists|r2: Result<Dep2, Dep0::Error>|
                                    #[trigger] Dep2::built(world, r2) && match r2 {
                                        Err(e) => r == Err::<Self, Dep0::Error>(e),
                                        Ok(v2) => {
                                            exists|r3: Result<Dep3, Dep0::Error>|
                                                #[trigger] Dep3::built(world, r3) && match r3 {
                                                    Err(e) => r == Err::<Self, Dep0::Error>(e),
                                                    Ok(v3) => {
                                                        exists|r4: Result<Dep4, Dep0::Error>|
                                                            #[trigger] Dep4::built(world, r4) && match r4 {
                                                                Err(e) => r == Err::<Self, Dep0::Error>(e),
                                                                Ok(v4) => {
                                                                    exists|r5: Result<Dep5, Dep0::Error>|
                                                                        #[trigger] Dep5::built(world, r5) && match r5 {
                                                                            Err(e) => r == Err::<Self, Dep0::Error>(e),
                                                                            Ok(v5) => r == Ok::<Self, Dep0::Error>((v0, v1, v2, v3, v4, v5)),
                                                                        }
                                                                },
                                                            }
                                                    },
                                                }
                                        },
                                    }
                            },
                        }
                },
            }
    }

    fn from_world(world: &Self::World<'_>) -> (r: Result<Self, Self::Error>) {
        let v0 = match Dep0::from_world(world) {
            Ok(v) => v,
            Err(e) => return Err(e),
        };
        let v1 = match Dep1::from_world(world) {
            Ok(v) => v,
            Err(e) => return Err(e),
        };
        let v2 = match Dep2::from_world(world) {
            Ok(v) => v,
            Err(e) => return Err(e),
        };
        let v3 = match Dep3::from_world(world) {
            Ok(v) => v,
            Err(e) => return Err(e),
        };
        let v4 = match Dep4::from_world(world) {
            Ok(v) => v,
            Err(e) => return Err(e),
        };
        let v5 = match Dep5::from_world(world) {
            Ok(v) => v,
            Err(e) => return Err(e),
        };
        Ok((v0, v1, v2, v3, v4, v5))
    }
}

impl<Dep0, Dep1, Dep2, Dep3, Dep4, Dep5, Dep6> FromWorld for (Dep0, Dep1, Dep2, Dep3, Dep4, Dep5, Dep6) where
    Dep0: FromWorld,
    Dep1: for<'a> FromWorld<World<'a> = Dep0::World<'a>, Error = Dep0::Error>,
    Dep2: for<'a> FromWorld<World<'a> = Dep0::World<'a>, Error = Dep0::Error>,
    Dep3: for<'a> FromWorld<World<'a> = Dep0::World<'a>, Error = Dep0::Error>,
    Dep4: for<'a> FromWorld<World<'a> = Dep0::World<'a>, Error = Dep0::Error>,
    Dep5: for<'a> FromWorld<World<'a> = Dep0::World<'a>, Error = Dep0::Error>,
    Dep6: for<'a> FromWorld<World<'a> = Dep0::World<'a>, Error = Dep0::Error>,
{
    type Error = Dep0::Error;
    type World<'a> = Dep0::World<'a>;

    /// Some outcome of each member in turn, up to the first failure.
    open spec fn built(world: &Self::World<'_>, r: Result<Self, Self::Error>) -> bool {
        exists|r0: Result<Dep0, Dep0::Error>|
            #[trigger] Dep0::built(world, r0) && match r0 {
                Err(e) => r == Err::<Self, Dep0::Error>(e),
                Ok(v0) => {
                    exists|r1: Result<Dep1, Dep0::Error>|
                        #[trigger] Dep1::built(world, r1) && match r1 {
                            Err(e) => r == Err::<Self, Dep0::Error>(e),
                            Ok(v1) => {
                                exists|r2: Result<Dep2, Dep0::Error>|
                                    #[trigger] Dep2::built(world, r2) && match r2 {
                                        Err(e) => r == Err::<Self, Dep0::Error>(e),
                                        Ok(v2) => {
                                            exists|r3: Result<Dep3, Dep0::Error>|
                                                #[trigger] Dep3::built(world, r3) && match r3 {
                                                    Err(e) => r == Err::<Self, Dep0::Error>(e),
                                                    Ok(v3) => {
                                                        exists|r4: Result<Dep4, Dep0::Error>|
                                                            #[trigger] Dep4::built(world, r4) && match r4 {
                                                                Err(e) => r == Err::<Self, Dep0::Error>(e),
                                                                Ok(v4) => {
                                                                    exists|r5: Result<Dep5, Dep0::Error>|
                                                                        #[trigger] Dep5::built(world, r5) && match r5 {
                                                                            Err(e) => r == Err::<Self, Dep0::Error>(e),
                                                                            Ok(v5) => {
                                                                                exists|r6: Result<Dep6, Dep0::Error>|
                                                                                    #[trigger] Dep6::built(world, r6) && match r6 {
                                                                                        Err(e) => r == Err::<Self, Dep0::Error>(e),
                                                                                        Ok(v6) => r == Ok::<Self, Dep0::Error>((v0, v1, v2, v3, v4, v5, v6)),
                                                                                    }
                                                                            },
                                                                        }
                                                                },
                                                            }
                                                    },
                                                }
                                        },
                                    }
                            },
                        }
                },
            }
    }

    fn from_world(world: &Self::World<'_>) -> (r: Result<Self, Self::Error>) {
        let v0 = match Dep0::from_world(world) {
            Ok(v) => v,
            Err(e) => return Err(e),
        };
        let v1 = match Dep1::from_world(world) {
            Ok(v) => v,
            Err(e) => return Err(e),
        };
        let v2 = match Dep2::from_world(world) {
            Ok(v) => v,
            Err(e) => return Err(e),
        };
        let v3 = match Dep3::from_world(world) {
            Ok(v) => v,
            Err(e) => return Err(e),
        };
        let v4 = match Dep4::from_world(world) {
            Ok(v) => v,
            Err(e) => return Err(e),
        };
        let v5 = match Dep5::from_world(world) {
            Ok(v) => v,
            Err(e) => return Err(e),
        };
        let v6 = match Dep6::from_world(world) {
            Ok(v) => v,
            Err(e) => return Err(e),
        };
        Ok((v0, v1, v2, v3, v4, v5, v6))
    }
}

impl<Dep0, Dep1, Dep2, Dep3, Dep4, Dep5, Dep6, Dep7> FromWorld for (Dep0, Dep1, Dep2, Dep3, Dep4, Dep5, Dep6, Dep7) where
    Dep0: FromWorld,
    Dep1: for<'a> FromWorld<World<'a> = Dep0::World<'a>, Error = Dep0::Error>,
    Dep2: for<'a> FromWorld<World<'a> = Dep0::World<'a>, Error = Dep0::Error>,
    Dep3: for<'a> FromWorld<World<'a> = Dep0::World<'a>, Error = Dep0::Error>,
    Dep4: for<'a> FromWorld<World<'a> = Dep0::World<'a>, Error = Dep0::Error>,
    Dep5: for<'a> FromWorld<World<'a> = Dep0::World<'a>, Error = Dep0::Error>,
    Dep6: for<'a> FromWorld<World<'a> = Dep0::World<'a>, Error = Dep0::Error>,
    Dep7: for<'a> FromWorld<World<'a> = Dep0::World<'a>, Error = Dep0::Error>,
{
    type Error = Dep0::Error;
    type World<'a> = Dep0::World<'a>;

    /// Some outcome of each member in turn, up to the first failure.
    open spec fn built(world: &Self::World<'_>, r: Result<Self, Self::Error>) -> bool {
        exists|r0: Result<Dep0, Dep0::Error>|
            #[trigger] Dep0::built(world, r0) && match r0 {
                Err(e) => r == Err::<Self, Dep0::Error>(e),
                Ok(v0) => {
                    exists|r1: Result<Dep1, Dep0::Error>|
                        #[trigger] Dep1::built(world, r1) && match r1 {
                            Err(e) => r == Err::<Self, Dep0::Error>(e),
                            Ok(v1) => {
                                exists|r2: Result<Dep2, Dep0::Error>|
                                    #[trigger] Dep2::built(world, r2) && match r2 {
                                        Err(e) => r == Err::<Self, Dep0::Error>(e),
                                        Ok(v2) => {
                                            exists|r3: Result<Dep3, Dep0::Error>|
                                                #[trigger] Dep3::built(world, r3) && match r3 {
                                                    Err(e) => r == Err::<Self, Dep0::Error>(e),
                                                    Ok(v3) => {
                                                        exists|r4: Result<Dep4, Dep0::Error>|
                                                            #[trigger] Dep4::built(world, r4) && match r4 {
                                                                Err(e) => r == Err::<Self, Dep0::Error>(e),
                                                                Ok(v4) => {
                                                                    exists|r5: Result<Dep5, Dep0::Error>|
                                                                        #[trigger] Dep5::built(world, r5) && match r5 {
                                                                            Err(e) => r == Err::<Self, Dep0::Error>(e),
                                                                            Ok(v5) => {
                                                                                exists|r6: Result<Dep6, Dep0::Error>|
                                                                                    #[trigger] Dep6::built(world, r6) && match r6 {
                                                                                        Err(e) => r == Err::<Self, Dep0::Error>(e),
                                                                                        Ok(v6) => {
                                                                                            exists|r7: Result<Dep7, Dep0::Error>|
                                                                                                #[trigger] Dep7::built(world, r7) && match r7 {
                                                                                                    Err(e) => r == Err::<Self, Dep0::Error>(e),
                                                                                                    Ok(v7) => r == Ok::<Self, Dep0::Error>((v0, v1, v2, v3, v4, v5, v6, v7)),
                                                                                                }
                                                                                        },
                                                                                    }
                                                                            },
                                                                        }
                                                                },
                                                            }
                                                    },
                                                }
                                        },
                                    }
                            },
                        }
                },
            }
    }

    fn from_world(world: &Self::World<'_>) -> (r: Result<Self, Self::Error>) {
        let v0 = match Dep0::from_world(world) {
            Ok(v) => v,
            Err(e) => return Err(e),
        };
        let v1 = match Dep1::from_world(world) {
            Ok(v) => v,
            Err(e) => return Err(e),
        };
        let v2 = match Dep2::from_world(world) {
            Ok(v) => v,
            Err(e) => return Err(e),
        };
        let v3 = match Dep3::from_world(world) {
            Ok(v) => v,
            Err(e) => return Err(e),
        };
        let v4 = match Dep4::from_world(world) {
            Ok(v) => v,
            Err(e) => return Err(e),
        };
        let v5 = match Dep5::from_world(world) {
            Ok(v) => v,
            Err(e) => return Err(e),
        };
        let v6 = match Dep6::from_world(world) {
            Ok(v) => v,
            Err(e) => return Err(e),
        };
        let v7 = match Dep7::from_world(world) {
            Ok(v) => v,
            Err(e) => return Err(e),
        };
        Ok((v0, v1, v2, v3, v4, v5, v6, v7))
    }
}

impl<Dep0, Dep1, Dep2, Dep3, Dep4, Dep5, Dep6, Dep7, Dep8> FromWorld for (Dep0, Dep1, Dep2, Dep3, Dep4, Dep5, Dep6, Dep7, Dep8) where
    Dep0: FromWorld,
    Dep1: for<'a> FromWorld<World<'a> = Dep0::World<'a>, Error = Dep0::Error>,
    Dep2: for<'a> FromWorld<World<'a> = Dep0::World<'a>, Error = Dep0::Error>,
    Dep3: for<'a> FromWorld<World<'a> = Dep0::World<'a>, Error = Dep0::Error>,
    Dep4: for<'a> FromWorld<World<'a> = Dep0::World<'a>, Error = Dep0::Error>,
    Dep5: for<'a> FromWorld<World<'a> = Dep0::World<'a>, Error = Dep0::Error>,
    Dep6: for<'a> FromWorld<World<'a> = Dep0::World<'a>, Error = Dep0::Error>,
    Dep7: for<'a> FromWorld<World<'a> = Dep0::World<'a>, Error = Dep0::Error>,
    Dep8: for<'a> FromWorld<World<'a> = Dep0::World<'a>, Error = Dep0::Error>,
{
    type Error = Dep0::Error;
    type World<'a> = Dep0::World<'a>;

    /// Some outcome of each member in turn, up to the first failure.
    open spec fn built(world: &Self::World<'_>, r: Result<Self, Self::Error>) -> bool {
        exists|r0: Result<Dep0, Dep0::Error>|
            #[trigger] Dep0::built(world, r0) && match r0 {
                Err(e) => r == Err::<Self, Dep0::Error>(e),
                Ok(v0) => {
                    exists|r1: Result<Dep1, Dep0::Error>|
                        #[trigger] Dep1::built(world, r1) && match r1 {
                            Err(e) => r == Err::<Self, Dep0::Error>(e),
                            Ok(v1) => {
                                exists|r2: Result<Dep2, Dep0::Error>|
                                    #[trigger] Dep2::built(world, r2) && match r2 {
                                        Err(e) => r == Err::<Self, Dep0::Error>(e),
                                        Ok(v2) => {
                                            exists|r3: Result<Dep3, Dep0::Error>|
                                                #[trigger] Dep3::built(world, r3) && match r3 {
                                                    Err(e) => r == Err::<Self, Dep0::Error>(e),
                                                    Ok(v3) => {
                                                        exists|r4: Result<Dep4, Dep0::Error>|
                                                            #[trigger] Dep4::built(world, r4) && match r4 {
                                                                Err(e) => r == Err::<Self, Dep0::Error>(e),
                                                                Ok(v4) => {
                                                                    exists|r5: Result<Dep5, Dep0::Error>|
                                                                        #[trigger] Dep5::built(world, r5) && match r5 {
                                                                            Err(e) => r == Err::<Self, Dep0::Error>(e),
                                                                            Ok(v5) => {
                                                                                exists|r6: Result<Dep6, Dep0::Error>|
                                                                                    #[trigger] Dep6::built(world, r6) && match r6 {
                                                                                        Err(e) => r == Err::<Self, Dep0::Error>(e),
                                                                                        Ok(v6) => {
                                                                                            exists|r7: Result<Dep7, Dep0::Error>|
                                                                                                #[trigger] Dep7::built(world, r7) && match r7 {
                                                                                                    Err(e) => r == Err::<Self, Dep0::Error>(e),
                                                                                                    Ok(v7) => {
                                                                                                        exists|r8: Result<Dep8, Dep0::Error>|
                                                                                                            #[trigger] Dep8::built(world, r8) && match r8 {
                                                                                                                Err(e) => r == Err::<Self, Dep0::Error>(e),
                                                                                                                Ok(v8) => r == Ok::<Self, Dep0::Error>((v0, v1, v2, v3, v4, v5, v6, v7, v8)),
                                                                                                            }
                                                                                                    },
                                                                                                }
                                                                                        },
                                                                                    }
                                                                            },
                                                                        }
                                                                },
                                                            }
                                                    },
                                                }
                                        },
                                    }
                            },
                        }
                },
            }
    }

    fn from_world(world: &Self::World<'_>) -> (r: Result<Self, Self::Error>) {
        let v0 = match Dep0::from_world(world) {
            Ok(v) => v,
            Err(e) => return Err(e),
        };
        let v1 = match Dep1::from_world(world) {
            Ok(v) => v,
            Err(e) => return Err(e),
        };
        let v2 = match Dep2::from_world(world) {
            Ok(v) => v,
            Err(e) => return Err(e),
        };
        let v3 = match Dep3::from_world(world) {
            Ok(v) => v,
            Err(e) => return Err(e),
        };
        let v4 = match Dep4::from_world(world) {
            Ok(v) => v,
            Err(e) => return Err(e),
        };
        let v5 = match Dep5::from_world(world) {
            Ok(v) => v,
            Err(e) => return Err(e),
        };
        let v6 = match Dep6::from_world(world) {
            Ok(v) => v,
            Err(e) => return Err(e),
        };
        let v7 = match Dep7::from_world(world) {
            Ok(v) => v,
            Err(e) => return Err(e),
        };
        let v8 = match Dep8::from_world(world) {
            Ok(v) => v,
            Err(e) => return Err(e),
        };
        Ok((v0, v1, v2, v3, v4, v5, v6, v7, v8))
    }
}

} // verus!
