use vstd::prelude::*;
use vstd::string::*;
use crate::canvas::{Canvas, CanvasState};
use crate::engine::{Environment, RenderingEngine};
use crate::pages::{Page, Pages};
use crate::sequence::{
    file_name, resolved_padding, sequence_file_names, sequence_names_differ, sequence_padding,
    Padding,
};
use crate::text::same_text;
use crate::values::{Color, Scalar};

verus! {

/// What the encoder is told besides the format.
#[derive(Clone, Copy, Debug, PartialEq, Eq)]
pub struct EncodeOptions {
    /// The quality, whose meaning depends on the format.
    pub quality: Scalar,
    /// The scale applied when the content is rendered.
    pub density: Scalar,
    /// Whether vector content is flattened to outlines.
    pub outline: bool,
    /// The colour put under transparent pixels, if any.
    pub matte: Option<Color>,
}

/// Where the host has to run a job.
#[derive(Clone, Copy, Debug, PartialEq, Eq)]
pub enum Dispatch {
    /// On the calling thread; the caller gets the result itself.
    Inline,
    /// On the worker pool; the caller gets a pending result, which is
    /// settled once, when the job has ended.
    WorkerPool,
}

/// How pages become one buffer.
#[derive(Clone, Copy, Debug, PartialEq, Eq)]
pub enum BufferStrategy {
    /// One document that holds the first `page_count` pages, in order.
    Document { page_count: usize },
    /// One image of `page`.
    SingleImage { page: Page },
}

/// How pages become files.
#[derive(Clone, Copy, Debug, PartialEq, Eq)]
pub enum SaveStrategy {
    /// One image file for each of the first `page_count` pages, in order,
    /// numbered from zero with `width` digits.
    Sequence { page_count: usize, width: usize },
    /// One document file that holds the first `page_count` pages, in order.
    Document { page_count: usize },
    /// One image file of `page`.
    SingleFile { page: Page },
}

/// An encoding that the host has to carry out.
#[derive(Debug, PartialEq, Eq)]
pub struct BufferJob {
    dispatch: Dispatch,
    strategy: BufferStrategy,
    pages: Pages,
    format: String,
    options: EncodeOptions,
}

/// A writing of files that the host has to carry out, one file after the
/// other. `files` holds the paths to write, in the order in which they are
/// written.
#[derive(Debug, PartialEq, Eq)]
pub struct SaveJob {
    dispatch: Dispatch,
    strategy: SaveStrategy,
    pages: Pages,
    format: String,
    options: EncodeOptions,
    files: Vec<String>,
}

/// One file that the host has to write for a save.
#[derive(Clone, Copy, Debug, PartialEq, Eq)]
pub enum SaveAction {
    /// Encode `page` as an image and write it to the path at `file` in the
    /// job's files.
    WriteImage { page: Page, file: usize },
    /// Encode the first `page_count` pages, in order, as one document and
    /// write it to the path at `file` in the job's files.
    WriteDocument { page_count: usize, file: usize },
}

/// How a save goes on.
#[derive(Debug, PartialEq, Eq)]
pub enum SaveStep {
    /// The host has to carry this out next.
    Next(SaveAction),
    /// The save has ended, and this is what the caller gets.
    Finished(Result<(), ExportError>),
}

/// What a `BufferJob` is.
pub struct BufferPlan {
    pub dispatch: Dispatch,
    pub strategy: BufferStrategy,
    pub pages: Seq<Page>,
    pub engine: RenderingEngine,
    pub format: Seq<char>,
    pub options: EncodeOptions,
}

/// What a `SaveJob` is.
pub struct SavePlan {
    pub dispatch: Dispatch,
    pub strategy: SaveStrategy,
    pub pages: Seq<Page>,
    pub engine: RenderingEngine,
    pub format: Seq<char>,
    pub options: EncodeOptions,
    pub files: Seq<Seq<char>>,
}

impl BufferPlan {
    /// Whether strategy, pages and format fit together: a document holds
    /// all the pages, there are several of them and the format is the
    /// document format; an image is of the first page.
    pub open spec fn well_formed(self) -> bool {
        &&& self.pages.len() >= 1
        &&& match self.strategy {
            BufferStrategy::Document { page_count } => page_count == self.pages.len()
                && page_count > 1 && is_document(self.format),
            BufferStrategy::SingleImage { page } => page == self.pages[0],
        }
    }
}

impl View for BufferJob {
    type V = BufferPlan;

    closed spec fn view(&self) -> BufferPlan {
        BufferPlan {
            dispatch: self.dispatch,
            strategy: self.strategy,
            pages: self.pages@.pages,
            engine: self.pages@.engine,
            format: self.format@,
            options: self.options,
        }
    }
}

impl SavePlan {
    /// Whether strategy, pages and files fit together: a sequence has one
    /// file for each page and no file twice, a document or a single image
    /// has one file.
    pub open spec fn well_formed(self) -> bool {
        &&& self.pages.len() >= 1
        &&& match self.strategy {
            SaveStrategy::Sequence { page_count, width } => page_count == self.pages.len()
                && self.files.len() == page_count && self.files.no_duplicates(),
            SaveStrategy::Document { page_count } => page_count == self.pages.len()
                && self.files.len() == 1,
            SaveStrategy::SingleFile { page } => page == self.pages[0] && self.files.len() == 1,
        }
    }

    /// The number of files that the save writes.
    pub open spec fn action_count(self) -> nat {
        match self.strategy {
            SaveStrategy::Sequence { page_count, width } => page_count as nat,
            SaveStrategy::Document { page_count } => 1,
            SaveStrategy::SingleFile { page } => 1,
        }
    }

    /// The writing of the file at `index`. In a sequence the file at
    /// `index` holds the page at `index`.
    pub open spec fn action(self, index: int) -> SaveAction {
        match self.strategy {
            SaveStrategy::Sequence { page_count, width } => SaveAction::WriteImage {
                page: self.pages[index],
                file: index as usize,
            },
            SaveStrategy::Document { page_count } => SaveAction::WriteDocument {
                page_count: page_count,
                file: 0,
            },
            SaveStrategy::SingleFile { page } => SaveAction::WriteImage { page: page, file: 0 },
        }
    }

    /// How the save goes on once `completed` files are written and `last`
    /// is what became of the latest one: a failure ends the save as an I/O
    /// error, whatever is still to be written; otherwise the next file is
    /// due, in order, until all are written.
    pub open spec fn step(self, completed: nat, last: Result<(), String>) -> SaveStep {
        match last {
            Err(words) => SaveStep::Finished(Err(ExportError::Io(words))),
            Ok(_) => if completed < self.action_count() {
                SaveStep::Next(self.action(completed as int))
            } else {
                SaveStep::Finished(Ok(()))
            },
        }
    }
}

impl View for SaveJob {
    type V = SavePlan;

    closed spec fn view(&self) -> SavePlan {
        SavePlan {
            dispatch: self.dispatch,
            strategy: self.strategy,
            pages: self.pages@.pages,
            engine: self.pages@.engine,
            format: self.format@,
            options: self.options,
            files: Seq::new(self.files@.len(), |i: int| self.files@[i]@),
        }
    }
}

impl BufferJob {
    #[verifier::type_invariant]
    spec fn consistent(self) -> bool {
        self@.well_formed()
    }

    /// Where the host has to run the job.
    pub fn dispatch(&self) -> (dispatch: Dispatch)
        ensures
            dispatch == self@.dispatch,
    {
        self.dispatch
    }

    /// How the pages become a buffer. A document holds every page of the
    /// job; an image is of the job's first page.
    pub fn strategy(&self) -> (strategy: BufferStrategy)
        ensures
            strategy == self@.strategy,
            self@.well_formed(),
    {
        proof {
            use_type_invariant(self);
        }
        self.strategy
    }

    /// The pages to encode, with their engine.
    pub fn pages(&self) -> (pages: &Pages)
        ensures
            pages@.pages == self@.pages,
            pages@.engine == self@.engine,
    {
        &self.pages
    }

    /// The format to encode in: the one that the strategy was chosen for.
    pub fn format(&self) -> (format: &str)
        ensures
            format@ == self@.format,
    {
        self.format.as_str()
    }

    /// What the encoder is told besides the format.
    pub fn options(&self) -> (options: EncodeOptions)
        ensures
            options == self@.options,
    {
        self.options
    }
}

impl SaveJob {
    #[verifier::type_invariant]
    spec fn consistent(self) -> bool {
        self@.well_formed()
    }

    /// Where the host has to run the job.
    pub fn dispatch(&self) -> (dispatch: Dispatch)
        ensures
            dispatch == self@.dispatch,
    {
        self.dispatch
    }

    /// How the pages become files.
    pub fn strategy(&self) -> (strategy: SaveStrategy)
        ensures
            strategy == self@.strategy,
    {
        self.strategy
    }

    /// The pages to write, with their engine.
    pub fn pages(&self) -> (pages: &Pages)
        ensures
            pages@.pages == self@.pages,
            pages@.engine == self@.engine,
    {
        &self.pages
    }

    /// What the encoder is told besides the format.
    pub fn options(&self) -> (options: EncodeOptions)
        ensures
            options == self@.options,
    {
        self.options
    }

    /// The format to encode in: the one that the strategy was chosen for.
    pub fn format(&self) -> (format: &str)
        ensures
            format@ == self@.format,
    {
        self.format.as_str()
    }

    /// The paths to write, in the order in which they are written. In a
    /// sequence no path occurs twice.
    pub fn files(&self) -> (files: &Vec<String>)
        ensures
            self@.well_formed(),
            files@.len() == self@.files.len(),
            forall|i: int| 0 <= i < files@.len() ==> (#[trigger] files@[i])@ == self@.files[i],
    {
        proof {
            use_type_invariant(self);
        }
        &self.files
    }

    /// How the save goes on once `completed` files are written and `last`
    /// is what became of the latest one; before the first file, `completed`
    /// is 0 and `last` is `Ok`. Files are written in order, a sequence page
    /// by page. The first failure ends the save as an I/O error: nothing
    /// more is written, nothing is tried again, and what was written stays.
    pub fn next_step(&self, completed: usize, last: Result<(), String>) -> (step: SaveStep)
        ensures
            self@.well_formed(),
            step == self@.step(completed as nat, last),
    {
        proof {
            use_type_invariant(self);
        }
        match last {
            Err(words) => SaveStep::Finished(deliver_save(Err(words))),
            Ok(_) => match self.strategy {
                SaveStrategy::Sequence { page_count, width } => {
                    match self.pages.get(completed) {
                        Some(page) => SaveStep::Next(
                            SaveAction::WriteImage { page: page, file: completed },
                        ),
                        None => SaveStep::Finished(Ok(())),
                    }
                },
                SaveStrategy::Document { page_count } => {
                    if completed < 1 {
                        SaveStep::Next(
                            SaveAction::WriteDocument { page_count: page_count, file: 0 },
                        )
                    } else {
                        SaveStep::Finished(Ok(()))
                    }
                },
                SaveStrategy::SingleFile { page } => {
                    if completed < 1 {
                        SaveStep::Next(SaveAction::WriteImage { page: page, file: 0 })
                    } else {
                        SaveStep::Finished(Ok(()))
                    }
                },
            },
        }
    }
}

/// What is wrong with the arguments of an export.
#[derive(Clone, Copy, Debug, PartialEq, Eq)]
pub enum ArgumentFault {
    /// No page was given.
    NoPages,
}

/// Why an export failed.
#[derive(Debug, PartialEq, Eq)]
pub enum ExportError {
    /// An argument is unfit, so no job was made.
    Argument(ArgumentFault),
    /// The encoder failed, with its own words.
    Encode(String),
    /// A file could not be written, with the writer's own words.
    Io(String),
}

impl ExportError {
    /// The error in words. A failure to write is marked as such in front.
    pub open spec fn text(self) -> Seq<char> {
        match self {
            ExportError::Argument(ArgumentFault::NoPages) => "at least one page is required"@,
            ExportError::Encode(words) => words@,
            ExportError::Io(words) => "I/O Error: "@ + words@,
        }
    }

    /// The error in words.
    pub fn message(&self) -> (words: String)
        ensures
            words@ == self.text(),
    {
        match self {
            ExportError::Argument(ArgumentFault::NoPages) => String::from_str(
                "at least one page is required",
            ),
            ExportError::Encode(words) => words.clone(),
            ExportError::Io(words) => {
                let mut marked = String::from_str("I/O Error: ");
                marked.append(words.as_str());
                marked
            },
        }
    }
}

/// Whether `format` is the one that holds several pages in one file.
pub open spec fn is_document(format: Seq<char>) -> bool {
    format == "pdf"@
}

/// How `pages` become one buffer of `format`: a document where the format
/// is the document format and there is more than one page, else an image of
/// the first page, whatever pages follow it.
pub open spec fn buffer_strategy_for(format: Seq<char>, pages: Seq<Page>) -> BufferStrategy {
    if is_document(format) && pages.len() > 1 {
        BufferStrategy::Document { page_count: pages.len() as usize }
    } else {
        BufferStrategy::SingleImage { page: pages[0] }
    }
}

/// How `pages` become files of `format`: a numbered sequence where one was
/// asked for, else a document where the format is the document format, else
/// one image of the first page.
pub open spec fn save_strategy_for(
    format: Seq<char>,
    sequence: bool,
    padding: Padding,
    pages: Seq<Page>,
) -> SaveStrategy {
    if sequence {
        SaveStrategy::Sequence {
            page_count: pages.len() as usize,
            width: resolved_padding(padding, pages.len()) as usize,
        }
    } else if is_document(format) {
        SaveStrategy::Document { page_count: pages.len() as usize }
    } else {
        SaveStrategy::SingleFile { page: pages[0] }
    }
}

/// The paths that a save writes, in order: the numbered names of a
/// sequence, or else the one path given.
pub open spec fn files_for(
    pattern: Seq<char>,
    sequence: bool,
    padding: Padding,
    page_count: nat,
) -> Seq<Seq<char>> {
    if sequence {
        Seq::new(
            page_count,
            |i: int| file_name(pattern, i as nat, resolved_padding(padding, page_count)),
        )
    } else {
        seq![pattern]
    }
}

/// What is wrong with a request for an export, if anything: it needs a
/// page. Every format, every name pattern and every padding is taken.
pub open spec fn export_fault(pages: Seq<Page>) -> Option<ArgumentFault> {
    if pages.len() == 0 {
        Some(ArgumentFault::NoPages)
    } else {
        None
    }
}

/// The encoding that a request for a buffer comes to.
pub open spec fn buffer_plan(
    engine: RenderingEngine,
    pages: Seq<Page>,
    format: Seq<char>,
    options: EncodeOptions,
    dispatch: Dispatch,
) -> BufferPlan {
    BufferPlan {
        dispatch: dispatch,
        strategy: buffer_strategy_for(format, pages),
        pages: pages,
        engine: engine,
        format: format,
        options: options,
    }
}

/// The writing that a request to save comes to.
pub open spec fn save_plan(
    engine: RenderingEngine,
    pages: Seq<Page>,
    pattern: Seq<char>,
    sequence: bool,
    padding: Padding,
    format: Seq<char>,
    options: EncodeOptions,
    dispatch: Dispatch,
) -> SavePlan {
    SavePlan {
        dispatch: dispatch,
        strategy: save_strategy_for(format, sequence, padding, pages),
        pages: pages,
        engine: engine,
        format: format,
        options: options,
        files: files_for(pattern, sequence, padding, pages.len()),
    }
}

/// Whether `format` is the one that holds several pages in one file.
pub fn is_document_format(format: &str) -> (document: bool)
    ensures
        document == is_document(format@),
{
    same_text(format, "pdf")
}

/// Chooses how `pages` become one buffer of `format`.
pub fn buffer_strategy(pages: &Pages, format: &str) -> (strategy: BufferStrategy)
    ensures
        strategy == buffer_strategy_for(format@, pages@.pages),
{
    let count: usize = pages.len();
    if is_document_format(format) && count > 1 {
        BufferStrategy::Document { page_count: count }
    } else {
        BufferStrategy::SingleImage { page: pages.first() }
    }
}

/// Chooses how `pages` become files of `format`.
pub fn save_strategy(pages: &Pages, format: &str, sequence: bool, padding: Padding) -> (strategy:
    SaveStrategy)
    ensures
        strategy == save_strategy_for(format@, sequence, padding, pages@.pages),
{
    let count: usize = pages.len();
    if sequence {
        SaveStrategy::Sequence { page_count: count, width: sequence_padding(padding, count) }
    } else if is_document_format(format) {
        SaveStrategy::Document { page_count: count }
    } else {
        SaveStrategy::SingleFile { page: pages.first() }
    }
}

fn plan_buffer(
    canvas: &mut Canvas,
    contents: Vec<Page>,
    format: &str,
    options: EncodeOptions,
    env: Environment,
    dispatch: Dispatch,
) -> (job: Result<BufferJob, ExportError>)
    ensures
        match job {
            Ok(job) => export_fault(contents@).is_none() && job@ == buffer_plan(
                old(canvas)@.resolved(env),
                contents@,
                format@,
                options,
                dispatch,
            ) && final(canvas)@ == old(canvas)@.materialized(env),
            Err(error) => export_fault(contents@).is_some() && error == ExportError::Argument(
                export_fault(contents@).unwrap(),
            ) && final(canvas)@ == old(canvas)@,
        },
{
    if contents.len() == 0 {
        return Err(ExportError::Argument(ArgumentFault::NoPages));
    }
    let engine = canvas.engine(env);
    match Pages::new(contents, engine) {
        Some(pages) => {
            let strategy = buffer_strategy(&pages, format);
            Ok(
                BufferJob {
                    dispatch: dispatch,
                    strategy: strategy,
                    pages: pages,
                    format: String::from_str(format),
                    options: options,
                },
            )
        },
        None => Err(ExportError::Argument(ArgumentFault::NoPages)),
    }
}

fn plan_save(
    canvas: &mut Canvas,
    contents: Vec<Page>,
    pattern: &str,
    sequence: bool,
    padding: Padding,
    format: &str,
    options: EncodeOptions,
    env: Environment,
    dispatch: Dispatch,
) -> (job: Result<SaveJob, ExportError>)
    ensures
        match job {
            Ok(job) => export_fault(contents@).is_none() && job@ == save_plan(
                old(canvas)@.resolved(env),
                contents@,
                pattern@,
                sequence,
                padding,
                format@,
                options,
                dispatch,
            ) && final(canvas)@ == old(canvas)@.materialized(env),
            Err(error) => export_fault(contents@).is_some() && error == ExportError::Argument(
                export_fault(contents@).unwrap(),
            ) && final(canvas)@ == old(canvas)@,
        },
{
    if contents.len() == 0 {
        return Err(ExportError::Argument(ArgumentFault::NoPages));
    }
    let engine = canvas.engine(env);
    match Pages::new(contents, engine) {
        Some(pages) => {
            let strategy = save_strategy(&pages, format, sequence, padding);
            let files: Vec<String> = if sequence {
                sequence_file_names(pattern, pages.len(), padding)
            } else {
                let mut one: Vec<String> = Vec::new();
                one.push(String::from_str(pattern));
                one
            };
            proof {
                let planned = files_for(pattern@, sequence, padding, contents@.len());
                assert(Seq::new(files@.len(), |i: int| files@[i]@) =~= planned);
                if sequence {
                    sequence_files_differ(pattern@, padding, contents@.len());
                }
            }
            let job = SaveJob {
                dispatch: dispatch,
                strategy: strategy,
                pages: pages,
                format: String::from_str(format),
                options: options,
                files: files,
            };
            assert(job@.files =~= files_for(pattern@, sequence, padding, contents@.len()));
            Ok(job)
        },
        None => Err(ExportError::Argument(ArgumentFault::NoPages)),
    }
}

/// Plans the encoding of `contents` into one buffer of `format`, to be run
/// on the worker pool. The pages are captured with the canvas's engine,
/// which the canvas picks and keeps where it held none. Without a page no
/// job is made and the canvas stays as it was.
pub fn toBuffer(
    canvas: &mut Canvas,
    contents: Vec<Page>,
    format: &str,
    options: EncodeOptions,
    env: Environment,
) -> (job: Result<BufferJob, ExportError>)
    ensures
        match job {
            Ok(job) => export_fault(contents@).is_none() && job@ == buffer_plan(
                old(canvas)@.resolved(env),
                contents@,
                format@,
                options,
                Dispatch::WorkerPool,
            ) && final(canvas)@ == old(canvas)@.materialized(env),
            Err(error) => export_fault(contents@).is_some() && error == ExportError::Argument(
                export_fault(contents@).unwrap(),
            ) && final(canvas)@ == old(canvas)@,
        },
{
    plan_buffer(canvas, contents, format, options, env, Dispatch::WorkerPool)
}

/// Plans the same encoding as `toBuffer`, to be run on the calling thread.
pub fn toBufferSync(
    canvas: &mut Canvas,
    contents: Vec<Page>,
    format: &str,
    options: EncodeOptions,
    env: Environment,
) -> (job: Result<BufferJob, ExportError>)
    ensures
        match job {
            Ok(job) => export_fault(contents@).is_none() && job@ == buffer_plan(
                old(canvas)@.resolved(env),
                contents@,
                format@,
                options,
                Dispatch::Inline,
            ) && final(canvas)@ == old(canvas)@.materialized(env),
            Err(error) => export_fault(contents@).is_some() && error == ExportError::Argument(
                export_fault(contents@).unwrap(),
            ) && final(canvas)@ == old(canvas)@,
        },
{
    plan_buffer(canvas, contents, format, options, env, Dispatch::Inline)
}

/// Plans the writing of `contents` to files, to be run on the worker pool.
/// With `sequence` set, every page gets a file of its own, whatever the
/// pattern is: the page's number goes into the name where `pattern` holds
/// `{}`, or else in front of the file name's extension, and `padding` says
/// how wide the numbers are. Without `sequence`, `pattern` is the path of
/// the one file written. The pages are captured as `toBuffer` captures
/// them. Without a page no job is made and the canvas stays as it was.
pub fn save(
    canvas: &mut Canvas,
    contents: Vec<Page>,
    pattern: &str,
    sequence: bool,
    padding: Padding,
    format: &str,
    options: EncodeOptions,
    env: Environment,
) -> (job: Result<SaveJob, ExportError>)
    ensures
        match job {
            Ok(job) => export_fault(contents@).is_none() && job@ == save_plan(
                old(canvas)@.resolved(env),
                contents@,
                pattern@,
                sequence,
                padding,
                format@,
                options,
                Dispatch::WorkerPool,
            ) && final(canvas)@ == old(canvas)@.materialized(env),
            Err(error) => export_fault(contents@).is_some() && error == ExportError::Argument(
                export_fault(contents@).unwrap(),
            ) && final(canvas)@ == old(canvas)@,
        },
{
    plan_save(
        canvas,
        contents,
        pattern,
        sequence,
        padding,
        format,
        options,
        env,
        Dispatch::WorkerPool,
    )
}

/// Plans the same writing as `save`, to be run on the calling thread.
pub fn saveSync(
    canvas: &mut Canvas,
    contents: Vec<Page>,
    pattern: &str,
    sequence: bool,
    padding: Padding,
    format: &str,
    options: EncodeOptions,
    env: Environment,
) -> (job: Result<SaveJob, ExportError>)
    ensures
        match job {
            Ok(job) => export_fault(contents@).is_none() && job@ == save_plan(
                old(canvas)@.resolved(env),
                contents@,
                pattern@,
                sequence,
                padding,
                format@,
                options,
                Dispatch::Inline,
            ) && final(canvas)@ == old(canvas)@.materialized(env),
            Err(error) => export_fault(contents@).is_some() && error == ExportError::Argument(
                export_fault(contents@).unwrap(),
            ) && final(canvas)@ == old(canvas)@,
        },
{
    plan_save(canvas, contents, pattern, sequence, padding, format, options, env, Dispatch::Inline)
}

/// What the caller of a buffer export gets for the encoder's outcome: the
/// encoder's bytes as they are, or its failure as an encode error. Nothing
/// of a failed encoding is handed on.
pub fn deliver_buffer(outcome: Result<Vec<u8>, String>) -> (result: Result<Vec<u8>, ExportError>)
    ensures
        match outcome {
            Ok(bytes) => result == Ok::<Vec<u8>, ExportError>(bytes),
            Err(words) => result == Err::<Vec<u8>, ExportError>(ExportError::Encode(words)),
        },
{
    match outcome {
        Ok(bytes) => Ok(bytes),
        Err(words) => Err(ExportError::Encode(words)),
    }
}

/// What the caller of a save gets for the writer's outcome: success, or the
/// writer's failure as an I/O error.
pub fn deliver_save(outcome: Result<(), String>) -> (result: Result<(), ExportError>)
    ensures
        match outcome {
            Ok(_) => result.is_ok(),
            Err(words) => result == Err::<(), ExportError>(ExportError::Io(words)),
        },
{
    match outcome {
        Ok(_) => Ok(()),
        Err(words) => Err(ExportError::Io(words)),
    }
}

/// A single page asked for as a buffer is encoded as an image of that page,
/// whatever the format, the document format included.
pub proof fn one_page_is_encoded_as_an_image(format: Seq<char>, pages: Seq<Page>)
    requires
        pages.len() == 1,
    ensures
        buffer_strategy_for(format, pages) == (BufferStrategy::SingleImage { page: pages[0] }),
{
}

/// Where a buffer is not a document, it is an image of the first page, and
/// the pages that follow are left out.
pub proof fn first_page_stands_for_the_buffer(format: Seq<char>, pages: Seq<Page>)
    requires
        pages.len() >= 1,
        !is_document(format),
    ensures
        buffer_strategy_for(format, pages) == (BufferStrategy::SingleImage { page: pages[0] }),
{
}

/// Several pages asked for as a buffer in the document format become one
/// document, which holds as many pages as were given.
pub proof fn several_pages_become_one_document(format: Seq<char>, pages: Seq<Page>)
    requires
        1 < pages.len() <= usize::MAX,
        is_document(format),
    ensures
        buffer_strategy_for(format, pages) == (BufferStrategy::Document {
            page_count: pages.len() as usize,
        }),
        buffer_strategy_for(format, pages)->Document_page_count == pages.len(),
{
}

/// A save writes a sequence exactly where one was asked for, and then one
/// file for each page; otherwise it writes the one path given, as a
/// document exactly where the format is the document format.
pub proof fn save_strategy_table(
    pattern: Seq<char>,
    sequence: bool,
    padding: Padding,
    format: Seq<char>,
    pages: Seq<Page>,
)
    requires
        pages.len() >= 1,
    ensures
        sequence <==> save_strategy_for(format, sequence, padding, pages) is Sequence,
        !sequence && is_document(format) <==> save_strategy_for(
            format,
            sequence,
            padding,
            pages,
        ) is Document,
        !sequence && !is_document(format) <==> save_strategy_for(
            format,
            sequence,
            padding,
            pages,
        ) is SingleFile,
        sequence ==> files_for(pattern, sequence, padding, pages.len()).len() == pages.len(),
        !sequence ==> files_for(pattern, sequence, padding, pages.len()) == seq![pattern],
{
}

/// Every encoding that is planned for at least one page is well formed: a
/// document holds as many pages as were given, an image is of the first.
pub proof fn planned_buffer_is_well_formed(
    engine: RenderingEngine,
    pages: Seq<Page>,
    format: Seq<char>,
    options: EncodeOptions,
    dispatch: Dispatch,
)
    requires
        1 <= pages.len() <= usize::MAX,
    ensures
        buffer_plan(engine, pages, format, options, dispatch).well_formed(),
{
}

/// A sequence names a file of its own for every page, whatever the pattern
/// and the padding are: no two pages are written to the same path.
pub proof fn sequence_files_differ(pattern: Seq<char>, padding: Padding, page_count: nat)
    ensures
        files_for(pattern, true, padding, page_count).len() == page_count,
        files_for(pattern, true, padding, page_count).no_duplicates(),
        forall|i: int, j: int|
            0 <= i < page_count && 0 <= j < page_count && i != j ==> files_for(
                pattern,
                true,
                padding,
                page_count,
            )[i] != files_for(pattern, true, padding, page_count)[j],
{
    let files = files_for(pattern, true, padding, page_count);
    let width = resolved_padding(padding, page_count);
    assert forall|i: int, j: int|
        0 <= i < page_count && 0 <= j < page_count && i != j implies files[i] != files[j] by {
        sequence_names_differ(pattern, i as nat, j as nat, width);
    }
}

/// Every save that is planned for at least one page is well formed.
pub proof fn planned_save_is_well_formed(
    engine: RenderingEngine,
    pages: Seq<Page>,
    pattern: Seq<char>,
    sequence: bool,
    padding: Padding,
    format: Seq<char>,
    options: EncodeOptions,
    dispatch: Dispatch,
)
    requires
        1 <= pages.len() <= usize::MAX,
    ensures
        save_plan(
            engine,
            pages,
            pattern,
            sequence,
            padding,
            format,
            options,
            dispatch,
        ).well_formed(),
{
    if sequence {
        sequence_files_differ(pattern, padding, pages.len());
    }
}

/// A sequence writes one file for each page, in page order: page `index`
/// goes to the file at `index`, under the name that the pattern gives for
/// `index`.
pub proof fn sequence_writes_pages_in_order(
    engine: RenderingEngine,
    pages: Seq<Page>,
    pattern: Seq<char>,
    padding: Padding,
    format: Seq<char>,
    options: EncodeOptions,
    dispatch: Dispatch,
    index: int,
)
    requires
        0 <= index < pages.len() <= usize::MAX,
    ensures
        ({
            let plan = save_plan(engine, pages, pattern, true, padding, format, options, dispatch);
            &&& plan.action_count() == pages.len()
            &&& plan.files.len() == pages.len()
            &&& plan.step(index as nat, Ok(())) == SaveStep::Next(
                SaveAction::WriteImage { page: pages[index], file: index as usize },
            )
            &&& plan.files[index] == file_name(
                pattern,
                index as nat,
                resolved_padding(padding, pages.len()),
            )
            &&& plan.step(pages.len(), Ok(())) == SaveStep::Finished(Ok(()))
        }),
{
}

/// A failure ends a save at once, as an I/O error with the writer's words,
/// however many files are still to be written.
pub proof fn failure_ends_the_save(plan: SavePlan, completed: nat, words: String)
    ensures
        plan.step(completed, Err(words)) == SaveStep::Finished(Err(ExportError::Io(words))),
{
}

/// The asynchronous and the synchronous form of an export plan the same
/// work: the same strategy on the same pages, with the same engine and
/// options, and the same files. They differ only in where the host runs it.
pub proof fn both_forms_plan_the_same_work(
    engine: RenderingEngine,
    pages: Seq<Page>,
    pattern: Seq<char>,
    sequence: bool,
    padding: Padding,
    format: Seq<char>,
    options: EncodeOptions,
)
    ensures
        buffer_plan(engine, pages, format, options, Dispatch::WorkerPool) == (BufferPlan {
            dispatch: Dispatch::WorkerPool,
            ..buffer_plan(engine, pages, format, options, Dispatch::Inline)
        }),
        save_plan(
            engine,
            pages,
            pattern,
            sequence,
            padding,
            format,
            options,
            Dispatch::WorkerPool,
        ) == (SavePlan {
            dispatch: Dispatch::WorkerPool,
            ..save_plan(engine, pages, pattern, sequence, padding, format, options, Dispatch::Inline)
        }),
{
}

/// Planning an export leaves the canvas's size alone, and the engine that
/// the canvas answers with stays the one it answered with before, whatever
/// the format is and however the encoding ends. A canvas that held an engine
/// is not changed at all.
pub proof fn export_keeps_the_canvas(canvas: CanvasState, env: Environment)
    ensures
        canvas.materialized(env).width == canvas.width,
        canvas.materialized(env).height == canvas.height,
        canvas.materialized(env).resolved(env) == canvas.resolved(env),
        canvas.engine.is_some() ==> canvas.materialized(env) == canvas,
{
}

} // verus!
