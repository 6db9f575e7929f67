//! What a deterministic build is started with.
//!
//! The build itself runs in a container and is the caller's business. The
//! decision made here is which directory is mounted into the container and
//! which image the container is made of.

use vstd::prelude::*;

verus! {

/// The mount path and the image of one build.
#[derive(Debug, PartialEq, Eq)]
pub struct BuildPlan {
    pub mount_path: String,
    pub image: String,
}

/// No build can be planned.
#[derive(Clone, Copy, Debug, PartialEq, Eq, Structural)]
pub enum BuildError {
    /// The working directory has no name that is valid text.
    InvalidPath,
}

/// The image that is used where the caller names none.
pub open spec fn default_image() -> Seq<char> {
    "ellipsislabs/solana:latest"@
}

/// The image of a build: the one that was asked for, or the default.
pub open spec fn image_of(base_image: Option<String>) -> Seq<char> {
    match base_image {
        Some(image) => image@,
        None => default_image(),
    }
}

/// The directory of a build: the one that was asked for, or the working
/// directory.
pub open spec fn mount_path_of(filepath: Option<String>, working_dir: String) -> String {
    match filepath {
        Some(path) => path,
        None => working_dir,
    }
}

/// Chooses the image of a build.
pub fn resolve_image(base_image: Option<String>) -> (image: String)
    ensures
        image@ == image_of(base_image),
{
    match base_image {
        Some(image) => image,
        None => "ellipsislabs/solana:latest".to_owned(),
    }
}

/// Plans a build. `working_dir` is the name of the current directory, or
/// `None` where that name is no valid text; the name is required even where
/// a directory was asked for, and its absence is the one error.
pub fn plan_build(
    filepath: Option<String>,
    working_dir: Option<String>,
    base_image: Option<String>,
) -> (plan: Result<BuildPlan, BuildError>)
    ensures
        match working_dir {
            Some(dir) => {
                &&& plan matches Ok(made)
                &&& made.mount_path == mount_path_of(filepath, dir)
                &&& made.image@ == image_of(base_image)
            },
            None => plan == Err::<BuildPlan, BuildError>(BuildError::InvalidPath),
        },
{
    match working_dir {
        Some(dir) => {
            let mount_path = match filepath {
                Some(path) => path,
                None => dir,
            };
            Ok(BuildPlan { mount_path, image: resolve_image(base_image) })
        },
        None => Err(BuildError::InvalidPath),
    }
}

} // verus!
