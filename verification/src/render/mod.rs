//! Rendering templates: the files to render, the values they are rendered
//! with, and the texts that come out.
//!
//! Reading a template and writing what was rendered is left to the caller:
//! the functions here take the text of a template and give back the text to
//! write and the path to write it to.

pub mod values;

use crate::cli::RenderCli;
use crate::native_commands::copy_text;
use crate::render::values::{
    as_map, distinct_keys, has_key, index_of, lemma_entry_in_map, Values,
};
use crate::text::{chars_of, scan, span, CharClass};
use vstd::prelude::*;
use vstd::string::*;

verus! {

/// A value that a template can read.
#[derive(Debug)]
pub enum TemplateValue {
    /// No value: false in a condition, nothing when written.
    Null,
    /// A truth value.
    Bool(bool),
    /// A text.
    Text(String),
}

/// The mathematical value of a [`TemplateValue`].
pub enum TemplateValueView {
    Null,
    Bool(bool),
    Text(Seq<char>),
}

impl View for TemplateValue {
    type V = TemplateValueView;

    open spec fn view(&self) -> TemplateValueView {
        match *self {
            TemplateValue::Null => TemplateValueView::Null,
            TemplateValue::Bool(b) => TemplateValueView::Bool(b),
            TemplateValue::Text(text) => TemplateValueView::Text(text@),
        }
    }
}

/// Whether `c` may stand between the braces that open a tag and the sign
/// that says what kind of tag it is.
pub open spec fn is_tag_filler(c: char) -> bool {
    c == ' ' || c == '\t' || c == '\n' || c == '\r' || c == '~' || c == '#'
}

/// The first position from `at` on that holds no tag filler, or the end of
/// `template`.
pub open spec fn filler_end(template: Seq<char>, at: int) -> int
    decreases template.len() - at,
{
    if 0 <= at < template.len() && is_tag_filler(template[at]) {
        filler_end(template, at + 1)
    } else {
        at
    }
}

/// Whether a tag that calls a partial starts at position `at` of
/// `template`: two opening braces, then nothing but whitespace, `~` and
/// `#`, then `>`.
pub open spec fn partial_call_at(template: Seq<char>, at: int) -> bool {
    &&& 0 <= at
    &&& at + 1 < template.len()
    &&& template[at] == '{'
    &&& template[at + 1] == '{'
    &&& filler_end(template, at + 2) < template.len()
    &&& template[filler_end(template, at + 2)] == '>'
}

/// Whether `template` calls a partial somewhere, or holds text that reads
/// like such a call.
pub open spec fn calls_partial(template: Seq<char>) -> bool {
    exists|at: int| partial_call_at(template, at)
}

/// `RenderError` of the handlebars crate: why it gave no text. Nothing is
/// claimed of what it holds; it is carried from the call to the place where
/// its message is taken.
#[verifier::external_type_specification]
#[verifier::external_body]
pub struct ExHandlebarsError(handlebars::RenderError);

/// `Handlebars::render_template` of the handlebars crate, on a registry as
/// `Handlebars::new` makes it, with `data` handed over as one object that
/// has a member for each entry. Nothing is claimed of what comes back: the
/// parser that reads the template gives up where the stack of the calling
/// thread runs short, so the same template may render in one place and
/// fail in another. A template that calls a partial is kept away from the
/// call: a partial that calls itself is followed without end.
#[verifier::external_body]
fn handlebars_render(template: &str, data: &Vec<(String, TemplateValue)>) -> (out: Result<
    String,
    handlebars::RenderError,
>)
    requires
        !calls_partial(template@),
        distinct_keys(data@),
{
    let object: std::collections::BTreeMap<String, handlebars::JsonValue> = data.iter().map(
        |entry| (entry.0.clone(), match &entry.1 {
            TemplateValue::Null => handlebars::JsonValue::Null,
            TemplateValue::Bool(b) => handlebars::JsonValue::Bool(*b),
            TemplateValue::Text(text) => handlebars::JsonValue::String(text.clone()),
        }),
    ).collect();
    handlebars::Handlebars::new().render_template(template, &object)
}

/// `to_string` on a `RenderError` of the handlebars crate: its message, as
/// its `Display` writes it. Nothing is claimed of the text.
#[verifier::external_body]
fn handlebars_message(error: &handlebars::RenderError) -> String {
    error.to_string()
}

/// Whether `template` calls a partial somewhere, or holds text that reads
/// like such a call.
pub fn has_partial_call(template: &str) -> (found: bool)
    ensures
        found == calls_partial(template@),
{
    let v = chars_of(template);
    let n = v.len();
    let mut at: usize = 0;
    while at < n
        invariant
            at <= n,
            n == v.len(),
            v@ == template@,
            forall|i: int| 0 <= i < at ==> !partial_call_at(template@, i),
        decreases n - at,
    {
        if v[at] == '{' && at + 1 < n && v[at + 1] == '{' {
            let mut end = at + 2;
            while end < n && (v[end] == ' ' || v[end] == '\t' || v[end] == '\n' || v[end] == '\r'
                || v[end] == '~' || v[end] == '#')
                invariant
                    at + 2 <= end <= n,
                    n == v.len(),
                    v@ == template@,
                    filler_end(template@, at + 2) == filler_end(template@, end as int),
                decreases n - end,
            {
                end += 1;
            }
            if end < n && v[end] == '>' {
                assert(partial_call_at(template@, at as int));
                return true;
            }
        }
        at += 1;
    }
    assert forall|i: int| !partial_call_at(template@, i) by {
        if 0 <= i && i + 1 < n {
            assert(i < at);
        }
    }
    false
}

/// What rendering gave, for the file that is to be written to `path` from
/// the template at `template_path`: the file with the text that was
/// rendered, or the failure of that template with the reason given.
pub open spec fn outcome_result(
    path: Seq<char>,
    template_path: Seq<char>,
    outcome: Result<Seq<char>, Seq<char>>,
) -> Result<RenderedFileView, RenderFailureView> {
    match outcome {
        Ok(contents) => Ok(RenderedFileView { path, contents }),
        Err(reason) => Err(RenderFailureView::Template { path: template_path, reason }),
    }
}

/// Takes in what rendering gave: the text, or the reason why there is
/// none. The text becomes the file to write to `path`; the reason becomes
/// the failure of the template at `template_path`.
pub fn rendered_outcome(path: String, template_path: &str, outcome: Result<String, String>) -> (out:
    Result<RenderedFile, RenderFailure>)
    ensures
        result_view(out) == outcome_result(path@, template_path@, text_result_view(outcome)),
{
    match outcome {
        Ok(contents) => Ok(RenderedFile { path, contents }),
        Err(reason) => Err(RenderFailure::Template { path: template_path.to_owned(), reason }),
    }
}

/// Renders `template` with `data` into the file to write to `path`; the
/// template was read from `template_path`.
///
/// A template that calls a partial is refused before anything is rendered.
/// Any other template is handed to handlebars, and what comes back decides:
/// the text goes into the file, a failure is passed on with its message.
pub(crate) fn render_text(
    template: &str,
    data: &Vec<(String, TemplateValue)>,
    path: String,
    template_path: &str,
) -> (out: Result<RenderedFile, RenderFailure>)
    requires
        distinct_keys(data@),
    ensures
        match out {
            Ok(file) => !calls_partial(template@) && file.path@ == path@,
            Err(RenderFailure::PartialCall { path: at }) => calls_partial(template@) && at@
                == template_path@,
            Err(RenderFailure::Template { path: at, reason }) => !calls_partial(template@) && at@
                == template_path@,
            Err(_) => false,
        },
{
    if has_partial_call(template) {
        return Err(RenderFailure::PartialCall { path: template_path.to_owned() });
    }
    let outcome = match handlebars_render(template, data) {
        Ok(text) => Ok(text),
        Err(error) => Err(handlebars_message(&error)),
    };
    rendered_outcome(path, template_path, outcome)
}

/// Why nothing was rendered.
#[derive(Debug)]
pub enum RenderFailure {
    /// A value on the command line is not of the form `key=value`.
    MalformedValue { argument: String },
    /// The template read from `path` calls a partial.
    PartialCall { path: String },
    /// The template read from `path` was rejected, or rendering it failed.
    Template { path: String, reason: String },
    /// There is not one template text for each file.
    TemplateCount { files: usize, templates: usize },
}

/// A text, and the path of the file it is to be written to.
#[derive(Debug)]
pub struct RenderedFile {
    pub path: String,
    pub contents: String,
}

/// The mathematical value of a [`RenderedFile`].
pub struct RenderedFileView {
    pub path: Seq<char>,
    pub contents: Seq<char>,
}

impl View for RenderedFile {
    type V = RenderedFileView;

    open spec fn view(&self) -> RenderedFileView {
        RenderedFileView { path: self.path@, contents: self.contents@ }
    }
}

impl DeepView for RenderedFile {
    type V = RenderedFileView;

    open spec fn deep_view(&self) -> RenderedFileView {
        self@
    }
}

/// The mathematical value of a [`RenderFailure`].
pub enum RenderFailureView {
    MalformedValue { argument: Seq<char> },
    PartialCall { path: Seq<char> },
    Template { path: Seq<char>, reason: Seq<char> },
    TemplateCount { files: usize, templates: usize },
}

impl View for RenderFailure {
    type V = RenderFailureView;

    open spec fn view(&self) -> RenderFailureView {
        match *self {
            RenderFailure::MalformedValue { argument } => RenderFailureView::MalformedValue {
                argument: argument@,
            },
            RenderFailure::PartialCall { path } => RenderFailureView::PartialCall { path: path@ },
            RenderFailure::Template { path, reason } => RenderFailureView::Template {
                path: path@,
                reason: reason@,
            },
            RenderFailure::TemplateCount { files, templates } => RenderFailureView::TemplateCount {
                files,
                templates,
            },
        }
    }
}

/// The result `r` with what it holds replaced by its view.
pub open spec fn result_view<T: View, E: View>(r: Result<T, E>) -> Result<T::V, E::V> {
    match r {
        Ok(value) => Ok(value@),
        Err(error) => Err(error@),
    }
}

/// The outcome `r` of rendering, with both texts replaced by their views.
pub open spec fn text_result_view(r: Result<String, String>) -> Result<Seq<char>, Seq<char>> {
    match r {
        Ok(text) => Ok(text@),
        Err(reason) => Err(reason@),
    }
}

/// The map `values` as template data: each text as a text value.
pub open spec fn text_data(values: Map<Seq<char>, Seq<char>>) -> Map<
    Seq<char>,
    TemplateValueView,
> {
    values.map_values(|text: Seq<char>| TemplateValueView::Text(text))
}

/// The entries of `values` as template data.
pub fn template_data(values: &Values) -> (data: Vec<(String, TemplateValue)>)
    ensures
        distinct_keys(data@),
        as_map(data@) == text_data(values@),
{
    let entries = values.entries();
    let mut data: Vec<(String, TemplateValue)> = Vec::new();
    let mut i: usize = 0;
    while i < entries.len()
        invariant
            i <= entries.len(),
            data.len() == i,
            forall|j: int|
                0 <= j < i ==> (#[trigger] data@[j]).0@ == entries@[j].0@ && data@[j].1@
                    == TemplateValueView::Text(entries@[j].1@),
        decreases entries.len() - i,
    {
        data.push((entries[i].0.clone(), TemplateValue::Text(entries[i].1.clone())));
        i += 1;
    }
    proof {
        assert forall|a: int, b: int| 0 <= a < b < data.len() implies (#[trigger] data@[a]).0@ != (
        #[trigger] data@[b]).0@ by {
            assert(entries@[a].0@ != entries@[b].0@);
        }
        assert forall|key: Seq<char>| has_key(data@, key) <==> has_key(entries@, key) by {
            if has_key(data@, key) {
                let k = index_of(data@, key);
                assert(entries@[k].0@ == key);
            }
            if has_key(entries@, key) {
                let k = index_of(entries@, key);
                assert(data@[k].0@ == key);
            }
        }
        assert forall|key: Seq<char>| has_key(data@, key) implies #[trigger] as_map(data@)[key]
            == text_data(values@)[key] by {
            let k = index_of(data@, key);
            lemma_entry_in_map(data@, k);
            assert(entries@[k].0@ == key);
            lemma_entry_in_map(entries@, k);
        }
        assert(as_map(data@) =~= text_data(values@));
    }
    data
}

/// One file to render.
#[derive(Debug)]
pub struct BakeCliRenderFileValues {
    /// The path of the template.
    pub template_path: String,
    /// The path of the rendered file; the template's own path if `None`.
    pub output_path: Option<String>,
    /// The values for this file.
    pub values: Option<Values>,
}

/// The mathematical value of a [`BakeCliRenderFileValues`].
pub struct RenderFileValuesView {
    pub template_path: Seq<char>,
    pub output_path: Option<Seq<char>>,
    pub values: Option<Map<Seq<char>, Seq<char>>>,
}

/// The map that `values` holds, if any.
pub open spec fn values_view(values: Option<Values>) -> Option<Map<Seq<char>, Seq<char>>> {
    match values {
        Some(v) => Some(v@),
        None => None,
    }
}

impl View for BakeCliRenderFileValues {
    type V = RenderFileValuesView;

    open spec fn view(&self) -> RenderFileValuesView {
        RenderFileValuesView {
            template_path: self.template_path@,
            output_path: self.output_path.deep_view(),
            values: values_view(self.values),
        }
    }
}

impl DeepView for BakeCliRenderFileValues {
    type V = RenderFileValuesView;

    open spec fn deep_view(&self) -> RenderFileValuesView {
        self@
    }
}

impl RenderFileValuesView {
    /// Where the rendered text goes: the output path, or else the path of
    /// the template, which is then replaced by what it renders to.
    pub open spec fn output(self) -> Seq<char> {
        match self.output_path {
            Some(path) => path,
            None => self.template_path,
        }
    }

    /// The values the file is rendered with: its own, and over them the
    /// values `shared` by all files.
    pub open spec fn merged(self, shared: Option<Map<Seq<char>, Seq<char>>>) -> Map<
        Seq<char>,
        Seq<char>,
    > {
        let own = match self.values {
            Some(values) => values,
            None => Map::empty(),
        };
        match shared {
            Some(values) => own.union_prefer_right(values),
            None => own,
        }
    }
}

impl Default for BakeCliRenderFileValues {
    fn default() -> (file: Self)
        ensures
            file@ == (RenderFileValuesView {
                template_path: Seq::empty(),
                output_path: None,
                values: None,
            }),
    {
        BakeCliRenderFileValues { template_path: String::new(), output_path: None, values: None }
    }
}

/// A copy of `values`.
fn copy_values(values: &Values) -> (copy: Values)
    ensures
        copy@ == values@,
{
    let copy = Values::new().extended(values);
    assert(copy@ =~= values@);
    copy
}

impl BakeCliRenderFileValues {
    /// The path that the rendered text is written to.
    pub fn output_file(&self) -> (path: String)
        ensures
            path@ == self@.output(),
    {
        match &self.output_path {
            Some(path) => path.clone(),
            None => self.template_path.clone(),
        }
    }

    /// The values the file is rendered with: its own, and over them the
    /// values `shared` by all files.
    pub fn merged_values(&self, shared: &Option<Values>) -> (values: Values)
        ensures
            values@ == self@.merged(values_view(*shared)),
    {
        let own = match &self.values {
            Some(values) => copy_values(values),
            None => Values::new(),
        };
        match shared {
            Some(values) => own.extended(values),
            None => own,
        }
    }

    /// Renders the text `template` of this file's template with the merged
    /// values, into the file to write to the output path.
    ///
    /// A template that calls a partial is refused. Whether any other
    /// template renders is for handlebars to say; its failure is passed on
    /// with the path of the template.
    pub fn render(&self, shared: &Option<Values>, template: &str) -> (out: Result<
        RenderedFile,
        RenderFailure,
    >)
        ensures
            match out {
                Ok(file) => !calls_partial(template@) && file.path@ == self@.output(),
                Err(RenderFailure::PartialCall { path }) => calls_partial(template@) && path@
                    == self.template_path@,
                Err(RenderFailure::Template { path, reason }) => !calls_partial(template@)
                    && path@ == self.template_path@,
                Err(_) => false,
            },
    {
        let data = template_data(&self.merged_values(shared));
        render_text(template, &data, self.output_file(), self.template_path.as_str())
    }
}

/// The files to render, and the values that all of them share.
#[derive(Debug)]
pub struct BakeCliRenderFile {
    pub files: Vec<BakeCliRenderFileValues>,
    pub values: Option<Values>,
}

/// The mathematical value of a [`BakeCliRenderFile`].
pub struct RenderFileView {
    pub files: Seq<RenderFileValuesView>,
    pub values: Option<Map<Seq<char>, Seq<char>>>,
}

impl View for BakeCliRenderFile {
    type V = RenderFileView;

    open spec fn view(&self) -> RenderFileView {
        RenderFileView { files: self.files.deep_view(), values: values_view(self.values) }
    }
}

impl Default for BakeCliRenderFile {
    fn default() -> (file: Self)
        ensures
            file@ == (RenderFileView { files: Seq::empty(), values: None }),
    {
        let file = BakeCliRenderFile { files: Vec::new(), values: None };
        assert(file.files.deep_view() =~= Seq::empty());
        file
    }
}

/// Whether none of the first `n` of `templates` calls a partial.
pub open spec fn no_partial_call_before(templates: Seq<Seq<char>>, n: int) -> bool {
    forall|i: int| 0 <= i < n ==> !calls_partial(#[trigger] templates[i])
}

impl BakeCliRenderFile {
    /// No file, no shared values.
    pub fn new() -> (file: Self)
        ensures
            file@ == (RenderFileView { files: Seq::empty(), values: None }),
    {
        let file = BakeCliRenderFile { files: Vec::new(), values: None };
        assert(file.files.deep_view() =~= Seq::empty());
        file
    }

    /// Renders every file, in order, `templates[i]` being the text of the
    /// template of file `i`.
    ///
    /// Gives the files to write, one for each file to render and in the same
    /// order, each with the output path of its file. Fails if there is not
    /// one text for each file, and else on the first file whose template
    /// calls a partial or does not render, with the path of that template.
    pub fn render_templates(&self, templates: &Vec<String>) -> (out: Result<
        Vec<RenderedFile>,
        RenderFailure,
    >)
        ensures
            match out {
                Ok(rendered) => {
                    &&& templates.len() == self.files.len()
                    &&& rendered.len() == self.files.len()
                    &&& no_partial_call_before(templates.deep_view(), templates.len() as int)
                    &&& forall|i: int|
                        0 <= i < rendered.len() ==> (#[trigger] rendered@[i]).path@
                            == self@.files[i].output()
                },
                Err(RenderFailure::TemplateCount { files, templates: texts }) => {
                    &&& templates.len() != self.files.len()
                    &&& files == self.files.len()
                    &&& texts == templates.len()
                },
                Err(RenderFailure::PartialCall { path }) => {
                    &&& templates.len() == self.files.len()
                    &&& exists|i: int|
                        {
                            &&& 0 <= i < self.files.len()
                            &&& no_partial_call_before(templates.deep_view(), i)
                            &&& calls_partial(templates.deep_view()[i])
                            &&& path@ == (#[trigger] self@.files[i]).template_path
                        }
                },
                Err(RenderFailure::Template { path, reason }) => {
                    &&& templates.len() == self.files.len()
                    &&& exists|i: int|
                        {
                            &&& 0 <= i < self.files.len()
                            &&& no_partial_call_before(templates.deep_view(), i + 1)
                            &&& path@ == (#[trigger] self@.files[i]).template_path
                        }
                },
                Err(_) => false,
            },
    {
        if templates.len() != self.files.len() {
            return Err(
                RenderFailure::TemplateCount { files: self.files.len(), templates: templates.len() },
            );
        }
        let mut rendered: Vec<RenderedFile> = Vec::new();
        let mut i: usize = 0;
        while i < self.files.len()
            invariant
                i <= self.files.len(),
                templates.len() == self.files.len(),
                rendered.len() == i,
                no_partial_call_before(templates.deep_view(), i as int),
                forall|j: int|
                    0 <= j < i ==> (#[trigger] rendered@[j]).path@ == self@.files[j].output(),
            decreases self.files.len() - i,
        {
            assert(self@.files[i as int] == self.files@[i as int]@);
            assert(templates.deep_view()[i as int] == templates@[i as int]@);
            match self.files[i].render(&self.values, templates[i].as_str()) {
                Ok(file) => {
                    rendered.push(file);
                },
                Err(error) => {
                    return Err(error);
                },
            }
            i += 1;
        }
        Ok(rendered)
    }
}

/// The key and the text of the value `argument`, written `key=text`: the
/// key is what stands before the first `=`, the text what stands between
/// that `=` and the next one, or the end. `None` if there is no `=`.
pub open spec fn split_value(argument: Seq<char>) -> Option<(Seq<char>, Seq<char>)> {
    let key_len = span(argument, CharClass::Except('='));
    if key_len == argument.len() {
        None
    } else {
        let rest = argument.skip(key_len as int + 1);
        Some((argument.take(key_len as int), rest.take(span(rest, CharClass::Except('=')) as int)))
    }
}

/// The map that the values `arguments` write down, a later one standing
/// over an earlier one with the same key; or the first of them that is not
/// of the form `key=text`.
pub open spec fn collect_values(arguments: Seq<Seq<char>>) -> Result<
    Map<Seq<char>, Seq<char>>,
    Seq<char>,
>
    decreases arguments.len(),
{
    if arguments.len() == 0 {
        Ok(Map::empty())
    } else {
        match collect_values(arguments.drop_last()) {
            Err(argument) => Err(argument),
            Ok(values) => match split_value(arguments.last()) {
                None => Err(arguments.last()),
                Some((key, text)) => Ok(values.insert(key, text)),
            },
        }
    }
}

/// Splits a value of the form `key=text` into its key and its text.
pub fn parse_value(argument: &str) -> (pair: Option<(String, String)>)
    ensures
        match pair {
            Some((key, text)) => split_value(argument@) == Some((key@, text@)),
            None => split_value(argument@) is None,
        },
{
    let v = chars_of(argument);
    let key_end = scan(&v, 0, v.len(), CharClass::Except('='));
    assert(v@.subrange(0, v.len() as int) =~= v@);
    if key_end == v.len() {
        return None;
    }
    let text_end = scan(&v, key_end + 1, v.len(), CharClass::Except('='));
    proof {
        let rest = v@.skip(key_end + 1);
        assert(rest =~= v@.subrange(key_end + 1, v.len() as int));
        assert(rest.take(text_end - (key_end + 1)) =~= v@.subrange(
            key_end + 1,
            text_end as int,
        ));
        assert(v@.take(key_end as int) =~= v@.subrange(0, key_end as int));
    }
    let key = argument.substring_char(0, key_end).to_owned();
    let text = argument.substring_char(key_end + 1, text_end).to_owned();
    Some((key, text))
}

/// Reads the values `arguments`, each of the form `key=text`.
pub fn values_from_arguments(arguments: &Vec<String>) -> (out: Result<Values, RenderFailure>)
    ensures
        match out {
            Ok(values) => collect_values(arguments.deep_view()) == Ok::<_, Seq<char>>(values@),
            Err(RenderFailure::MalformedValue { argument }) => collect_values(
                arguments.deep_view(),
            ) == Err::<Map<Seq<char>, Seq<char>>, _>(argument@),
            Err(_) => false,
        },
{
    let mut values = Values::new();
    let mut i: usize = 0;
    assert(arguments.deep_view().take(0) =~= Seq::empty());
    while i < arguments.len()
        invariant
            i <= arguments.len(),
            collect_values(arguments.deep_view().take(i as int)) == Ok::<_, Seq<char>>(values@),
        decreases arguments.len() - i,
    {
        proof {
            let upto = arguments.deep_view().take(i + 1);
            assert(upto.drop_last() =~= arguments.deep_view().take(i as int));
            assert(upto.last() == arguments@[i as int]@);
        }
        match parse_value(arguments[i].as_str()) {
            Some((key, text)) => {
                values = values.with(key, text);
            },
            None => {
                proof {
                    lemma_collect_values_fails(arguments.deep_view(), i + 1);
                }
                return Err(RenderFailure::MalformedValue { argument: arguments[i].clone() });
            },
        }
        i += 1;
    }
    assert(arguments.deep_view().take(i as int) =~= arguments.deep_view());
    Ok(values)
}

/// A value that is not of the form `key=text` fails the whole list, with
/// the first such value.
pub proof fn lemma_collect_values_fails(arguments: Seq<Seq<char>>, n: int)
    requires
        0 <= n <= arguments.len(),
        collect_values(arguments.take(n)) is Err,
    ensures
        collect_values(arguments) == collect_values(arguments.take(n)),
    decreases arguments.len() - n,
{
    if n < arguments.len() {
        assert(arguments.take(n + 1).drop_last() =~= arguments.take(n));
        lemma_collect_values_fails(arguments, n + 1);
    } else {
        assert(arguments.take(n) =~= arguments);
    }
}

/// The configuration file that is read when the command line names none.
pub open spec fn default_config() -> Seq<char> {
    "./config.yml"@
}

/// Where the files to render come from.
#[derive(Debug)]
pub enum RenderSource {
    /// They are given.
    Files(BakeCliRenderFile),
    /// They are to be read from the configuration file at this path.
    Config(String),
}

/// What the command line `cli` asks to render.
///
/// With a template file it is that one file, rendered with the values of
/// the command line to the output file, or over the template itself. Else
/// the files are listed in the configuration file, whose path is given back.
pub fn render_templates(cli: &RenderCli) -> (out: Result<RenderSource, RenderFailure>)
    ensures
        match out {
            Ok(RenderSource::Files(file)) => {
                &&& cli.template_file is Some
                &&& file@.values is None
                &&& file@.files.len() == 1
                &&& file@.files[0].template_path == cli.template_file.unwrap()@
                &&& file@.files[0].output_path == cli.output_file.deep_view()
                &&& file@.files[0].values is Some
                &&& collect_values(cli.values.deep_view()) == Ok::<_, Seq<char>>(
                    file@.files[0].values.unwrap(),
                )
            },
            Ok(RenderSource::Config(path)) => {
                &&& cli.template_file is None
                &&& path@ == match cli.config_file {
                    Some(config) => config@,
                    None => default_config(),
                }
            },
            Err(RenderFailure::MalformedValue { argument }) => {
                &&& cli.template_file is Some
                &&& collect_values(cli.values.deep_view()) == Err::<Map<Seq<char>, Seq<char>>, _>(
                    argument@,
                )
            },
            Err(_) => false,
        },
{
    match &cli.template_file {
        Some(template) => {
            let values = match values_from_arguments(&cli.values) {
                Ok(values) => values,
                Err(error) => { return Err(error); },
            };
            let file = BakeCliRenderFileValues {
                template_path: template.clone(),
                output_path: copy_text(&cli.output_file),
                values: Some(values),
            };
            let mut render_file = BakeCliRenderFile::new();
            render_file.files = vec![file];
            Ok(RenderSource::Files(render_file))
        },
        None => {
            let path = match &cli.config_file {
                Some(config) => config.clone(),
                None => "./config.yml".to_owned(),
            };
            Ok(RenderSource::Config(path))
        },
    }
}

} // verus!
