//! Finding libpeios and generating its raw bindings at build time.
//!
//! The build step asks for three directories by environment variable and
//! otherwise for pkg-config. This module decides which of the two it is, which
//! link directives follow, and which names the generated bindings declare.
use vstd::prelude::*;
use vstd::string::StringExecFns;

verus! {

/// Where libpeios comes from.
#[derive(Debug)]
pub enum Library {
    /// The directory of the library, and the directories of its headers and of
    /// the kernel's, in the order in which they are searched.
    Directory(String, Vec<String>),
    /// pkg-config says, and emits the link directives itself.
    PkgConfig,
}

/// A variable that has to be set beside the library's directory.
#[derive(Debug, Clone, Copy, PartialEq, Eq, Structural)]
pub enum Missing {
    /// The directory of libpeios' headers.
    Headers,
    /// The directory of the kernel's headers.
    KernelHeaders,
}

/// Decide where libpeios comes from. An explicit library directory precedes
/// pkg-config, and needs both header directories.
pub fn locate(
    lib_dir: Option<String>,
    headers: Option<String>,
    kernel_headers: Option<String>,
) -> (r: core::result::Result<Library, Missing>)
    ensures
        match lib_dir {
            None => r == Ok::<Library, Missing>(Library::PkgConfig),
            Some(dir) => match headers {
                None => r == Err::<Library, Missing>(Missing::Headers),
                Some(h) => match kernel_headers {
                    None => r == Err::<Library, Missing>(Missing::KernelHeaders),
                    Some(k) => r matches Ok(Library::Directory(d, dirs)) && d == dir && dirs@
                        == seq![h, k],
                },
            },
        },
{
    match lib_dir {
        None => Ok(Library::PkgConfig),
        Some(dir) => {
            let h = match headers {
                Some(h) => h,
                None => return Err(Missing::Headers),
            };
            let k = match kernel_headers {
                Some(k) => k,
                None => return Err(Missing::KernelHeaders),
            };
            let mut dirs: Vec<String> = Vec::new();
            dirs.push(h);
            dirs.push(k);
            Ok(Library::Directory(dir, dirs))
        },
    }
}

/// What the build step prints: nothing more where pkg-config was asked; where
/// the library's directory is known, the search path, the library with its kind,
/// and, for a dynamic build, a runtime search path.
pub open spec fn directive_text(lib: Library, static_link: bool) -> Seq<Seq<char>> {
    match lib {
        Library::PkgConfig => Seq::empty(),
        Library::Directory(dir, _) => if static_link {
            seq![
                "cargo:rustc-link-search=native="@ + dir@,
                "cargo:rustc-link-lib=static=peios"@,
            ]
        } else {
            seq![
                "cargo:rustc-link-search=native="@ + dir@,
                "cargo:rustc-link-lib=dylib=peios"@,
                "cargo:rustc-link-arg=-Wl,-rpath,"@ + dir@,
            ]
        },
    }
}

/// The link directives to print, in order.
pub fn directives(lib: &Library, static_link: bool) -> (out: Vec<String>)
    ensures
        out@.map_values(|s: String| s@) == directive_text(*lib, static_link),
{
    let mut out: Vec<String> = Vec::new();
    match lib {
        Library::PkgConfig => {},
        Library::Directory(dir, _) => {
            let search = "cargo:rustc-link-search=native=".to_owned();
            out.push(search.concat(dir.as_str()));
            if static_link {
                out.push("cargo:rustc-link-lib=static=peios".to_owned());
            } else {
                out.push("cargo:rustc-link-lib=dylib=peios".to_owned());
                let rpath = "cargo:rustc-link-arg=-Wl,-rpath,".to_owned();
                out.push(rpath.concat(dir.as_str()));
            }
        },
    }
    assert(out@.map_values(|s: String| s@) =~= directive_text(*lib, static_link));
    out
}

/// A family of names that libpeios' headers declare.
#[derive(Debug, Clone, Copy, PartialEq, Eq, Structural)]
pub enum Family {
    /// The functions, types and constants of libpeios itself.
    Own,
    /// The kernel's types that its signatures mention.
    WireTypes,
    /// The kernel's constants that its arguments are made of.
    WireConstants,
}

/// Where the declarations of a family come from.
#[derive(Debug, Clone, Copy, PartialEq, Eq, Structural)]
pub enum Origin {
    /// The generated bindings.
    Generated,
    /// The shared mirror of the kernel's headers.
    Mirror,
}

/// Where a family comes from. With the mirror in use the kernel's names are
/// taken from it, so that each has one identity; libpeios' own never are.
pub open spec fn origin_of(family: Family, mirror: bool) -> Origin {
    if mirror && family != Family::Own {
        Origin::Mirror
    } else {
        Origin::Generated
    }
}

/// Where a family comes from.
pub fn origin(family: Family, mirror: bool) -> (o: Origin)
    ensures
        o == origin_of(family, mirror),
{
    match family {
        Family::Own => Origin::Generated,
        Family::WireTypes | Family::WireConstants => if mirror {
            Origin::Mirror
        } else {
            Origin::Generated
        },
    }
}

/// Only a dynamic build with a known library directory gets a runtime search
/// path, and a build through pkg-config gets no directive at all.
pub proof fn law_rpath_is_for_dynamic_builds(lib: Library, static_link: bool)
    ensures
        directive_text(lib, static_link).len() == (match lib {
            Library::PkgConfig => 0nat,
            Library::Directory(_, _) => if static_link {
                2nat
            } else {
                3nat
            },
        }),
        lib matches Library::Directory(dir, _) ==> (directive_text(lib, static_link).len() == 3
            ==> directive_text(lib, static_link)[2] == "cargo:rustc-link-arg=-Wl,-rpath,"@ + dir@),
{
}

/// What is printed for a known directory: first the search path with that
/// directory, then the library as the kind that was asked for.
pub proof fn law_directives_in_order(dir: String, headers: Vec<String>, static_link: bool)
    ensures
        ({
            let lib = Library::Directory(dir, headers);
            let lines = directive_text(lib, static_link);
            &&& lines.len() >= 2
            &&& lines[0] == "cargo:rustc-link-search=native="@ + dir@
            &&& static_link ==> lines[1] == "cargo:rustc-link-lib=static=peios"@
            &&& !static_link ==> lines[1] == "cargo:rustc-link-lib=dylib=peios"@
        }),
{
}

/// libpeios' own names are always generated, and the kernel's are exactly where the
/// mirror is not in use.
pub proof fn law_origins_by_family(mirror: bool)
    ensures
        origin_of(Family::Own, mirror) == Origin::Generated,
        origin_of(Family::WireTypes, mirror) == Origin::Mirror <==> mirror,
        origin_of(Family::WireConstants, mirror) == Origin::Mirror <==> mirror,
{
}

} // verus!
