//! Build-time collection setup: which directory to collect, where the
//! generated source goes, and the npm build that runs before collecting.

use crate::path::join_prefix;
use crate::path::join_segs;
use crate::path::split_path;
use crate::path::split_segs;
use crate::strutil::str_eq;
use vstd::prelude::*;

verus! {

/// A directory to collect resources from, with the name and place of the
/// generated source.
pub struct ResourceDir {
    pub resource_dir: String,
    pub generated_filename: Option<String>,
    pub generated_fn: Option<String>,
}

/// A collection of the given directory, with no filter and the default
/// generated file name and function name.
pub fn resource_dir(dir: &str) -> (r: ResourceDir)
    ensures
        r.resource_dir@ == dir@,
        r.generated_filename is None,
        r.generated_fn is None,
{
    ResourceDir {
        resource_dir: dir.to_owned(),
        generated_filename: Option::None,
        generated_fn: Option::None,
    }
}

impl ResourceDir {
    /// Writes the generated source under this name.
    pub fn with_generated_filename(self, generated_filename: &str) -> (r: Self)
        ensures
            r.resource_dir@ == self.resource_dir@,
            r.generated_filename matches Option::Some(f) && f@ == generated_filename@,
            r.generated_fn == self.generated_fn,
    {
        ResourceDir { generated_filename: Option::Some(generated_filename.to_owned()), ..self }
    }

    /// Names the generated constructor function.
    pub fn with_generated_fn(self, generated_fn: &str) -> (r: Self)
        ensures
            r.resource_dir@ == self.resource_dir@,
            r.generated_filename == self.generated_filename,
            r.generated_fn matches Option::Some(f) && f@ == generated_fn@,
    {
        ResourceDir { generated_fn: Option::Some(generated_fn.to_owned()), ..self }
    }
}

/// An npm-style build to run before collecting: the directory holding
/// `package.json`, the executable to run, and the directory the build
/// writes its output to.
pub struct NpmBuild {
    pub package_json_dir: String,
    pub executable: String,
    pub target_dir: Option<String>,
}

impl NpmBuild {
    /// A build in the given directory, run with `npm`.
    pub fn new(package_json_dir: &str) -> (r: Self)
        ensures
            r.package_json_dir@ == package_json_dir@,
            r.executable@ == "npm"@,
            r.target_dir is None,
    {
        NpmBuild {
            package_json_dir: package_json_dir.to_owned(),
            executable: "npm".to_owned(),
            target_dir: Option::None,
        }
    }

    /// Uses another npm-like executable, yarn for instance.
    pub fn executable(self, executable: &str) -> (r: Self)
        ensures
            r.package_json_dir@ == self.package_json_dir@,
            r.executable@ == executable@,
            r.target_dir == self.target_dir,
    {
        NpmBuild { executable: executable.to_owned(), ..self }
    }

    /// Sets the build's output directory; `node_modules` under the package
    /// directory otherwise.
    pub fn target(self, target_dir: &str) -> (r: Self)
        ensures
            r.package_json_dir@ == self.package_json_dir@,
            r.executable@ == self.executable@,
            r.target_dir matches Option::Some(t) && t@ == target_dir@,
    {
        NpmBuild { target_dir: Option::Some(target_dir.to_owned()), ..self }
    }

    /// The directory to collect from: the target directory when one was
    /// set, `node_modules` under the package directory otherwise.
    pub fn to_resource_dir(self) -> (r: ResourceDir)
        ensures
            r.resource_dir@ == match self.target_dir {
                Option::Some(t) => t@,
                Option::None => self.package_json_dir@ + "/node_modules"@,
            },
            r.generated_filename is None,
            r.generated_fn is None,
    {
        let dir = match self.target_dir {
            Option::Some(t) => t,
            Option::None => {
                let mut d = self.package_json_dir;
                d.append("/node_modules");
                d
            },
        };
        ResourceDir {
            resource_dir: dir,
            generated_filename: Option::None,
            generated_fn: Option::None,
        }
    }
}

/// The directory change detection excludes beside the package defaults:
/// when the target directory sits beneath the package directory, its
/// ancestor lying directly under the package directory; the target
/// directory itself otherwise.
pub open spec fn exclude_dir_spec(pkg: Seq<char>, target: Seq<char>) -> Seq<char> {
    let p = split_segs(pkg);
    let t = split_segs(target);
    if t.len() > p.len() && t.take(p.len() as int) == p {
        join_segs(t.take(p.len() as int + 1))
    } else {
        target
    }
}

/// Picks the directory change detection should exclude so that the npm
/// build's own writes do not retrigger it.
pub fn change_detection_exclude_dir(package_json_dir: &str, target_dir: &str) -> (r: String)
    ensures
        r@ == exclude_dir_spec(package_json_dir@, target_dir@),
{
    let p = split_path(package_json_dir);
    let t = split_path(target_dir);
    let ghost pv = split_segs(package_json_dir@);
    let ghost tv = split_segs(target_dir@);
    if t.len() <= p.len() {
        return target_dir.to_owned();
    }
    let mut j: usize = 0;
    while j < p.len()
        invariant
            pv == split_segs(package_json_dir@),
            tv == split_segs(target_dir@),
            p@.map_values(|s: &str| s@) == pv,
            t@.map_values(|s: &str| s@) == tv,
            t@.len() > p@.len(),
            0 <= j <= p@.len(),
            forall|m: int| 0 <= m < j ==> tv[m] == pv[m],
        decreases p.len() - j,
    {
        if !str_eq(t[j], p[j]) {
            proof {
                assert(tv[j as int] != pv[j as int]);
                assert(tv.take(pv.len() as int)[j as int] == tv[j as int]);
            }
            return target_dir.to_owned();
        }
        j += 1;
    }
    proof {
        assert(tv.take(pv.len() as int) =~= pv);
    }
    join_prefix(&t, p.len() + 1)
}

} // verus!
