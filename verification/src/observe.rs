//! Deriving the workload's current state from what the runtime reports.
//!
//! The runtime is the ground truth: the controller hands the raw listing of
//! entities that carry its identity to `derive_state` and adopts the result.
//! An entity with a foreign image, or two entities that disagree, is an
//! identity violation and fails closed.

use vstd::prelude::*;
use crate::errors::ArunError;
use crate::state::{status_to_state, RunnerState};

verus! {

/// What the runtime reports about one entity carrying the controller's
/// identity: its image reference and its state string, either of which the
/// runtime may omit.
#[derive(Debug)]
pub struct ContainerView {
    pub image: Option<String>,
    pub status: Option<String>,
}

/// What the runtime reports about one of its networks.
#[derive(Debug)]
pub struct NetworkView {
    pub name: Option<String>,
    pub id: Option<String>,
}

/// The state derived from a listing, walked front to back with the state
/// seen so far: a missing field is a runtime error, a foreign image or two
/// entities whose states disagree fail closed as a conflict, and an
/// unrecognized state string is rejected as unknown.  An empty listing
/// means the workload does not exist.
pub open spec fn derive_from(
    obs: Seq<ContainerView>,
    image: Seq<char>,
    acc: RunnerState,
) -> Result<RunnerState, ArunError>
    decreases obs.len(),
{
    if obs.len() == 0 {
        Ok(acc)
    } else {
        let c = obs[0];
        match c.image {
            Option::None => Err(ArunError::DockerErr),
            Option::Some(img) => if img@ == image {
                match c.status {
                    Option::None => Err(ArunError::DockerErr),
                    Option::Some(st) => match status_to_state(st@) {
                        Option::None => Err(ArunError::Unknown),
                        Option::Some(ns) => if acc != RunnerState::NonExist && acc != ns {
                            Err(ArunError::ConflictedWithOther)
                        } else {
                            derive_from(obs.drop_first(), image, ns)
                        },
                    },
                }
            } else {
                Err(ArunError::ConflictedWithOther)
            },
        }
    }
}

/// The state the controller adopts from a listing of entities that carry
/// its identity.
pub open spec fn derive_state_spec(obs: Seq<ContainerView>, image: Seq<char>) -> Result<
    RunnerState,
    ArunError,
> {
    derive_from(obs, image, RunnerState::NonExist)
}

/// Derives the current state from the runtime's listing of entities that
/// carry the controller's identity, against the image the configuration
/// expects.
pub fn derive_state(observed: &Vec<ContainerView>, image: &String) -> (r: Result<
    RunnerState,
    ArunError,
>)
    ensures
        r == derive_state_spec(observed@, image@),
{
    let mut acc = RunnerState::NonExist;
    let mut i: usize = 0;
    proof {
        assert(observed@.skip(0) =~= observed@);
    }
    while i < observed.len()
        invariant
            i <= observed@.len(),
            derive_state_spec(observed@, image@) == derive_from(
                observed@.skip(i as int),
                image@,
                acc,
            ),
        decreases observed@.len() - i,
    {
        proof {
            assert(observed@.skip(i as int)[0] == observed@[i as int]);
        }
        let c = &observed[i];
        match &c.image {
            Option::None => {
                return Err(ArunError::DockerErr);
            }
            Option::Some(img) => {
                if *img == *image {
                    match &c.status {
                        Option::None => {
                            return Err(ArunError::DockerErr);
                        }
                        Option::Some(st) => {
                            match RunnerState::from_status(st.as_str()) {
                                Err(e) => {
                                    return Err(e);
                                }
                                Ok(ns) => {
                                    if acc != RunnerState::NonExist && acc != ns {
                                        return Err(ArunError::ConflictedWithOther);
                                    }
                                    acc = ns;
                                }
                            }
                        }
                    }
                } else {
                    return Err(ArunError::ConflictedWithOther);
                }
            }
        }
        i += 1;
        proof {
            assert(observed@.skip(i - 1).drop_first() =~= observed@.skip(i as int));
        }
    }
    proof {
        assert(observed@.skip(i as int).len() == 0);
    }
    Ok(acc)
}

/// A listing that holds an entity whose image differs from the expected one
/// never yields a state, whatever else it holds.
proof fn lemma_foreign_image_from(obs: Seq<ContainerView>, image: Seq<char>, acc: RunnerState)
    requires
        exists|i: int|
            0 <= i < obs.len() && ((#[trigger] obs[i].image) matches Some(img) && img@
                != image),
    ensures
        !(derive_from(obs, image, acc) is Ok),
    decreases obs.len(),
{
    let i = choose|i: int|
        0 <= i < obs.len() && ((#[trigger] obs[i].image) matches Some(img) && img@ != image);
    match obs[0].image {
        Option::Some(img) => {
            if img@ == image {
                match obs[0].status {
                    Option::Some(st) => {
                        match status_to_state(st@) {
                            Option::Some(ns) => {
                                if !(acc != RunnerState::NonExist && acc != ns) {
                                    assert(i != 0);
                                    assert(obs.drop_first()[i - 1] == obs[i]);
                                    lemma_foreign_image_from(obs.drop_first(), image, ns);
                                }
                            },
                            Option::None => {},
                        }
                    },
                    Option::None => {},
                }
            }
        },
        Option::None => {},
    }
}

/// An entity under the controller's identity whose image is not the
/// expected one makes the whole listing unusable: the derived result is
/// never a state.
pub proof fn lemma_foreign_image_never_adopted(obs: Seq<ContainerView>, image: Seq<char>)
    requires
        exists|i: int|
            0 <= i < obs.len() && ((#[trigger] obs[i].image) matches Some(img) && img@
                != image),
    ensures
        !(derive_state_spec(obs, image) is Ok),
{
    lemma_foreign_image_from(obs, image, RunnerState::NonExist);
}

/// A listing whose entries all carry an image and a recognized state string.
pub open spec fn listing_well_formed(obs: Seq<ContainerView>) -> bool {
    forall|i: int|
        0 <= i < obs.len() ==> (#[trigger] obs[i].image) is Some && ((obs[i].status) matches Some(
            st,
        ) && status_to_state(st@) is Some)
}

/// Helper for the conflict property, generalized over the state seen so
/// far.
proof fn lemma_conflict_from(obs: Seq<ContainerView>, image: Seq<char>, acc: RunnerState)
    requires
        listing_well_formed(obs),
        exists|i: int|
            0 <= i < obs.len() && ((#[trigger] obs[i].image) matches Some(img) && img@
                != image),
    ensures
        derive_from(obs, image, acc) == Result::<RunnerState, ArunError>::Err(
            ArunError::ConflictedWithOther,
        ),
    decreases obs.len(),
{
    let i = choose|i: int|
        0 <= i < obs.len() && ((#[trigger] obs[i].image) matches Some(img) && img@ != image);
    match obs[0].image {
        Option::Some(img) => {
            if img@ == image {
                let st = obs[0].status->0;
                let ns = status_to_state(st@)->0;
                if !(acc != RunnerState::NonExist && acc != ns) {
                    assert(i != 0);
                    assert(obs.drop_first()[i - 1] == obs[i]);
                    assert(listing_well_formed(obs.drop_first())) by {
                        assert forall|j: int| 0 <= j < obs.drop_first().len() implies (
                        #[trigger] obs.drop_first()[j].image) is Some && ((obs.drop_first()[j].status) matches Some(
                            s,
                        ) && status_to_state(s@) is Some) by {
                            assert(obs.drop_first()[j] == obs[j + 1]);
                        }
                    }
                    lemma_conflict_from(obs.drop_first(), image, ns);
                }
            }
        },
        Option::None => {},
    }
}

/// Conflict detection: when every listed entity reports an image and a
/// recognized state, but one of them carries an image other than the
/// expected one, the derived result is exactly the conflict error.
pub proof fn lemma_conflict_detection(obs: Seq<ContainerView>, image: Seq<char>)
    requires
        listing_well_formed(obs),
        exists|i: int|
            0 <= i < obs.len() && ((#[trigger] obs[i].image) matches Some(img) && img@
                != image),
    ensures
        derive_state_spec(obs, image) == Result::<RunnerState, ArunError>::Err(
            ArunError::ConflictedWithOther,
        ),
{
    lemma_conflict_from(obs, image, RunnerState::NonExist);
}

/// The name of the private bridge network the controller attaches its
/// workload to.
pub fn default_network_name() -> (r: String)
    ensures
        r@ == "virt-network0"@,
{
    String::from_str("virt-network0")
}

/// The identifier of the private network found in a listing, walked front
/// to back: the first network carrying the expected name yields its
/// identifier, a found network without one is a runtime error, and a
/// listing without the network yields nothing.
pub open spec fn find_network_spec(nets: Seq<NetworkView>) -> Result<Option<Seq<char>>, ArunError>
    decreases nets.len(),
{
    if nets.len() == 0 {
        Ok(None)
    } else {
        match nets[0].name {
            Option::Some(name) => if name@ == "virt-network0"@ {
                match nets[0].id {
                    Option::Some(id) => Ok(Some(id@)),
                    Option::None => Err(ArunError::DockerErr),
                }
            } else {
                find_network_spec(nets.drop_first())
            },
            Option::None => find_network_spec(nets.drop_first()),
        }
    }
}

/// Looks the private network up in the runtime's listing.
pub fn find_network(nets: &Vec<NetworkView>) -> (r: Result<Option<String>, ArunError>)
    ensures
        find_network_spec(nets@) matches Ok(Some(id)) ==> r matches Ok(Some(s)) && s@ == id,
        find_network_spec(nets@) == Result::<Option<Seq<char>>, ArunError>::Ok(None) ==> r
            == Result::<Option<String>, ArunError>::Ok(None),
        find_network_spec(nets@) matches Err(e) ==> r == Result::<Option<String>, ArunError>::Err(
            e,
        ),
{
    let expected = default_network_name();
    let mut i: usize = 0;
    proof {
        assert(nets@.skip(0) =~= nets@);
    }
    while i < nets.len()
        invariant
            i <= nets@.len(),
            expected@ == "virt-network0"@,
            find_network_spec(nets@) == find_network_spec(nets@.skip(i as int)),
        decreases nets@.len() - i,
    {
        proof {
            assert(nets@.skip(i as int)[0] == nets@[i as int]);
        }
        match &nets[i].name {
            Option::Some(name) => {
                if *name == expected {
                    match &nets[i].id {
                        Option::Some(id) => {
                            return Ok(Some(id.clone()));
                        }
                        Option::None => {
                            return Err(ArunError::DockerErr);
                        }
                    }
                }
            }
            Option::None => {}
        }
        i += 1;
        proof {
            assert(nets@.skip(i - 1).drop_first() =~= nets@.skip(i as int));
        }
    }
    proof {
        assert(nets@.skip(i as int).len() == 0);
    }
    Ok(None)
}

/// Whether any listed image carries a tag equal to the expected image
/// reference.
pub fn image_present(tag_lists: &Vec<Vec<String>>, image: &String) -> (r: bool)
    ensures
        r == exists|i: int, j: int|
            0 <= i < tag_lists@.len() && 0 <= j < tag_lists@[i]@.len()
                && (#[trigger] tag_lists@[i]@[j])@ == image@,
{
    let mut i: usize = 0;
    while i < tag_lists.len()
        invariant
            i <= tag_lists@.len(),
            forall|a: int, b: int|
                0 <= a < i && 0 <= b < tag_lists@[a]@.len() ==> (#[trigger] tag_lists@[a]@[b])@
                    != image@,
        decreases tag_lists@.len() - i,
    {
        let tags = &tag_lists[i];
        let mut j: usize = 0;
        while j < tags.len()
            invariant
                i < tag_lists@.len(),
                j <= tags@.len(),
                tags == &tag_lists@[i as int],
                forall|b: int| 0 <= b < j ==> (#[trigger] tags@[b])@ != image@,
            decreases tags@.len() - j,
        {
            if tags[j] == *image {
                return true;
            }
            j += 1;
        }
        i += 1;
    }
    false
}

} // verus!
