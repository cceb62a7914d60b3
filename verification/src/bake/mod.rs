//! Baking a system extension: the release file that marks the directory as
//! an extension, and the filesystem image built from it.
//!
//! [`bake_sysext`] lays out what is to be done for one extension. The caller
//! creates the directory, writes the release file, and then drives the
//! build of the image.

pub mod filesystem;
pub mod version;

use crate::bake::filesystem::{create_filesystem, BuildView, FilesystemBuild};
use crate::cli::BakeCli;
use crate::render::values::{as_map, distinct_keys, lemma_push_inserts};
use crate::render::{
    calls_partial, render_text, RenderFailure, RenderedFile, TemplateValue, TemplateValueView,
};
use vstd::prelude::*;
use vstd::string::*;

verus! {

/// The directory, below the extension `name`, that holds its release file.
pub open spec fn extension_directory(name: Seq<char>) -> Seq<char> {
    name + "/usr/lib/extension-release.d"@
}

/// The path of the release file of the extension `name`.
pub open spec fn release_file_path(name: Seq<char>) -> Seq<char> {
    extension_directory(name) + "/extension-release."@ + name
}

/// What the template of the release file can read: the options of the
/// command line, each under the name of its field. The format and the
/// architecture stand as the names of their variants; without an
/// architecture, `arch` is null.
pub open spec fn release_data(cli: &BakeCli) -> Map<Seq<char>, TemplateValueView> {
    Map::<Seq<char>, TemplateValueView>::empty().insert(
        "name"@,
        TemplateValueView::Text(cli.name@),
    ).insert("os"@, TemplateValueView::Text(cli.os@)).insert(
        "format"@,
        TemplateValueView::Text(cli.format.variant()),
    ).insert(
        "arch"@,
        match cli.arch {
            Some(arch) => TemplateValueView::Text(arch.variant()),
            None => TemplateValueView::Null,
        },
    ).insert("reload"@, TemplateValueView::Bool(cli.reload))
}

/// The directory, below the extension `name`, that holds its release file.
pub fn create_extension_directory(name: &str) -> (directory: String)
    ensures
        directory@ == extension_directory(name@),
{
    name.to_owned().concat("/usr/lib/extension-release.d")
}

/// The options of `cli` as the data of a template.
pub fn template_data(cli: &BakeCli) -> (data: Vec<(String, TemplateValue)>)
    ensures
        distinct_keys(data@),
        as_map(data@) == release_data(cli),
{
    let arch = match &cli.arch {
        Some(arch) => TemplateValue::Text(arch.variant_name().to_owned()),
        None => TemplateValue::Null,
    };
    let mut data: Vec<(String, TemplateValue)> = Vec::new();
    proof {
        reveal_strlit("name");
        reveal_strlit("os");
        reveal_strlit("format");
        reveal_strlit("arch");
        reveal_strlit("reload");
        assert("name"@[0] != "arch"@[0]);
        assert("format"@[0] != "reload"@[0]);
        assert(as_map(data@) =~= Map::<Seq<char>, TemplateValueView>::empty());
    }
    let entry = ("name".to_owned(), TemplateValue::Text(cli.name.clone()));
    proof {
        lemma_push_inserts(data@, entry);
    }
    data.push(entry);
    let entry = ("os".to_owned(), TemplateValue::Text(cli.os.clone()));
    proof {
        assert forall|i: int| 0 <= i < data.len() implies (#[trigger] data@[i]).0@ != entry.0@ by {}
        lemma_push_inserts(data@, entry);
    }
    data.push(entry);
    let entry = ("format".to_owned(), TemplateValue::Text(cli.format.variant_name().to_owned()));
    proof {
        assert forall|i: int| 0 <= i < data.len() implies (#[trigger] data@[i]).0@ != entry.0@ by {}
        lemma_push_inserts(data@, entry);
    }
    data.push(entry);
    let entry = ("arch".to_owned(), arch);
    proof {
        assert forall|i: int| 0 <= i < data.len() implies (#[trigger] data@[i]).0@ != entry.0@ by {}
        lemma_push_inserts(data@, entry);
    }
    data.push(entry);
    let entry = ("reload".to_owned(), TemplateValue::Bool(cli.reload));
    proof {
        assert forall|i: int| 0 <= i < data.len() implies (#[trigger] data@[i]).0@ != entry.0@ by {}
        lemma_push_inserts(data@, entry);
    }
    data.push(entry);
    data
}

/// The release file of the extension that `cli` describes, rendered from
/// the text `template`.
pub fn create_extension_release_file(cli: &BakeCli, template: &str) -> (out: Result<
    RenderedFile,
    RenderFailure,
>)
    ensures
        match out {
            Ok(file) => !calls_partial(template@) && file.path@ == release_file_path(cli.name@),
            Err(RenderFailure::PartialCall { path }) => calls_partial(template@) && path@
                == release_file_path(cli.name@),
            Err(RenderFailure::Template { path, reason }) => !calls_partial(template@) && path@
                == release_file_path(cli.name@),
            Err(_) => false,
        },
{
    let path = create_extension_directory(cli.name.as_str()).concat("/extension-release.").concat(
        cli.name.as_str(),
    );
    let data = template_data(cli);
    render_text(template, &data, path.clone(), path.as_str())
}

/// What baking one extension takes, in the order in which it is done.
#[derive(Debug)]
pub struct Bake {
    /// The directory to create, with all that leads to it.
    pub directory: String,
    /// The release file to write into that directory.
    pub release_file: RenderedFile,
    /// The build of the image, before its first invocation.
    pub filesystem: FilesystemBuild,
}

/// Lays out the baking of the extension that `cli` describes: the directory
/// of its release file, the release file rendered from `template`, and the
/// build of its image in the format asked for.
///
/// Fails where the template does not render; nothing is to be done then.
/// A template that calls a partial is not rendered.
pub fn bake_sysext(cli: &BakeCli, template: &str) -> (out: Result<Bake, RenderFailure>)
    ensures
        match out {
            Ok(bake) => {
                &&& !calls_partial(template@)
                &&& bake.directory@ == extension_directory(cli.name@)
                &&& bake.release_file.path@ == release_file_path(cli.name@)
                &&& bake.filesystem@ == BuildView::strategy(cli.format, cli.name@)
            },
            Err(RenderFailure::PartialCall { path }) => calls_partial(template@) && path@
                == release_file_path(cli.name@),
            Err(RenderFailure::Template { path, reason }) => !calls_partial(template@) && path@
                == release_file_path(cli.name@),
            Err(_) => false,
        },
{
    let directory = create_extension_directory(cli.name.as_str());
    let release_file = match create_extension_release_file(cli, template) {
        Ok(file) => file,
        Err(error) => { return Err(error); },
    };
    let filesystem = create_filesystem(cli);
    Ok(Bake { directory, release_file, filesystem })
}

} // verus!
