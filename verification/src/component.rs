//! The state of the page and how messages move it. The page itself, and the
//! reading of files, are the caller's; this module decides what follows from
//! what happened.

use crate::ascii::grid_text;
use crate::codec::{
    decoding, downsampled, encoding, lemma_decoded_grid_is_wf,
    lemma_faithful_file_decodes_to_its_grid, lossless_on,
};
use crate::error::PipelineError;
use crate::invert::{inverted, lemma_invert_involution, lemma_inverted_wf};
use crate::outside::base64_text;
use crate::pipeline::{render_file, rendition_of};
use crate::pixel::GridModel;
use crate::present::{base64_fits, data_uri};
use vstd::prelude::*;
use vstd::string::*;

verus! {

/// The divisor by which pictures are downsampled for their ASCII rendition.
pub const ASCII_RESOLUTION: u32 = 4;

/// How far the processing of one selected file has come. A file has a stage
/// from the moment it is selected; decoding and rendering happen within the
/// one update that takes its bytes in, so a request goes from `ReadPending`
/// straight to `Rendered` or `Failed`, and stays there.
#[derive(Clone, Copy, Debug, PartialEq, Eq, Structural)]
pub enum Stage {
    /// The file's bytes have been asked for and have not arrived yet.
    ReadPending,
    /// The file was decoded and its pictures are on display.
    Rendered,
    /// Reading or processing the file failed; nothing of it is on display.
    Failed(PipelineError),
}

/// One selected file. Its place in the list of records is the identifier of
/// its read request; the name is for display only.
#[derive(Debug)]
pub struct FileRecord {
    pub name: String,
    pub stage: Stage,
}

/// A record as contracts see it.
pub struct RecordModel {
    pub name: Seq<char>,
    pub stage: Stage,
}

impl View for FileRecord {
    type V = RecordModel;

    open spec fn view(&self) -> RecordModel {
        RecordModel { name: self.name@, stage: self.stage }
    }
}

/// What happened: the user selected files, or a read request came to an end.
#[derive(Debug)]
pub enum Msg {
    /// Files were selected; these are their names, in the order of selection.
    Files(Vec<String>),
    /// The read request with this identifier delivered these bytes.
    LoadedBytes(usize, Vec<u8>),
    /// The read request with this identifier failed.
    ReadFailed(usize),
}

/// A message as contracts see it.
pub enum MsgModel {
    Files(Seq<Seq<char>>),
    LoadedBytes(nat, Seq<u8>),
    ReadFailed(nat),
}

impl View for Msg {
    type V = MsgModel;

    open spec fn view(&self) -> MsgModel {
        match self {
            Msg::Files(names) => MsgModel::Files(names.deep_view()),
            Msg::LoadedBytes(id, bytes) => MsgModel::LoadedBytes(*id as nat, bytes@),
            Msg::ReadFailed(id) => MsgModel::ReadFailed(*id as nat),
        }
    }
}

/// What the caller has to do after an update.
#[derive(Clone, Copy, Debug, PartialEq, Eq, Structural)]
pub enum Action {
    /// Start one read for each selected file, in the order of selection, and
    /// give the requests the identifiers `first`, `first + 1` and so on.
    StartReads { first: usize, count: usize },
    /// Let go of the read request with this identifier: it is over.
    Release(usize),
    /// The message was about no pending request; there is nothing to do.
    Nothing,
}

/// The state of the page: the pictures on display as base64 text, the ASCII
/// renditions on display, and one record for every file ever selected.
#[verifier::ext_equal]
pub struct ComponentModel {
    pub files: Seq<Seq<char>>,
    pub asciis: Seq<Seq<char>>,
    pub records: Seq<RecordModel>,
}

impl ComponentModel {
    /// The state in which nothing was selected yet.
    pub open spec fn empty() -> ComponentModel {
        ComponentModel { files: Seq::empty(), asciis: Seq::empty(), records: Seq::empty() }
    }

    /// The request `id` exists and has not come to an end.
    pub open spec fn is_pending(self, id: nat) -> bool {
        id < self.records.len() && self.records[id as int].stage == Stage::ReadPending
    }

    /// The state with the stage of record `id` replaced.
    pub open spec fn with_stage(self, id: nat, stage: Stage) -> ComponentModel {
        ComponentModel {
            records: self.records.update(
                id as int,
                RecordModel { name: self.records[id as int].name, stage },
            ),
            ..self
        }
    }

    /// The state after a message.
    ///
    /// Selecting files adds one pending record for each name, in order, and
    /// changes nothing else. The end of a pending request changes its record
    /// alone: to `Rendered`, with its two pictures and its rendition added at
    /// the end of the display, or to `Failed`, with nothing added. A message
    /// about a request that does not exist or is over changes nothing.
    pub open spec fn step(self, msg: MsgModel) -> ComponentModel {
        match msg {
            MsgModel::Files(names) => ComponentModel {
                records: self.records + Seq::new(
                    names.len(),
                    |i: int| RecordModel { name: names[i], stage: Stage::ReadPending },
                ),
                ..self
            },
            MsgModel::LoadedBytes(id, bytes) => if self.is_pending(id) {
                match rendition_of(bytes, ASCII_RESOLUTION as nat) {
                    Ok(shown) => ComponentModel {
                        files: self.files.push(shown.picture).push(shown.negative),
                        asciis: self.asciis.push(shown.ascii),
                        ..self.with_stage(id, Stage::Rendered)
                    },
                    Err(e) => self.with_stage(id, Stage::Failed(e)),
                }
            } else {
                self
            },
            MsgModel::ReadFailed(id) => if self.is_pending(id) {
                self.with_stage(id, Stage::Failed(PipelineError::ReadError))
            } else {
                self
            },
        }
    }

    /// What the caller has to do after a message.
    pub open spec fn reaction(self, msg: MsgModel) -> Action {
        match msg {
            MsgModel::Files(names) => Action::StartReads {
                first: self.records.len() as usize,
                count: names.len() as usize,
            },
            MsgModel::LoadedBytes(id, _) => if self.is_pending(id) {
                Action::Release(id as usize)
            } else {
                Action::Nothing
            },
            MsgModel::ReadFailed(id) => if self.is_pending(id) {
                Action::Release(id as usize)
            } else {
                Action::Nothing
            },
        }
    }
}

/// The stage in which a request ends when it delivers these bytes.
pub open spec fn stage_after(bytes: Seq<u8>) -> Stage {
    match rendition_of(bytes, ASCII_RESOLUTION as nat) {
        Ok(_) => Stage::Rendered,
        Err(e) => Stage::Failed(e),
    }
}

/// No file is lost for sharing its name with another. Of the files selected
/// together, any two are two pending requests with identifiers of their own,
/// whatever their names, the same name included. When the first delivers its
/// bytes its own request is released and the second is still pending; when
/// both have delivered, each record shows the outcome of its own bytes under
/// its own name, and where both were rendered the display has grown by the
/// two pictures and the rendition of the one, then those of the other.
pub proof fn lemma_files_of_one_name_are_both_processed(
    s: ComponentModel,
    names: Seq<Seq<char>>,
    i: int,
    j: int,
    bytes_i: Seq<u8>,
    bytes_j: Seq<u8>,
)
    requires
        0 <= i < names.len(),
        0 <= j < names.len(),
        i != j,
    ensures
        ({
            let id_i = (s.records.len() + i) as nat;
            let id_j = (s.records.len() + j) as nat;
            let selected = s.step(MsgModel::Files(names));
            let one_done = selected.step(MsgModel::LoadedBytes(id_i, bytes_i));
            let both_done = one_done.step(MsgModel::LoadedBytes(id_j, bytes_j));
            &&& id_i != id_j
            &&& selected.is_pending(id_i)
            &&& selected.is_pending(id_j)
            &&& one_done.is_pending(id_j)
            &&& one_done.records[id_i as int].stage == stage_after(bytes_i)
            &&& both_done.records[id_i as int] == RecordModel {
                name: names[i],
                stage: stage_after(bytes_i),
            }
            &&& both_done.records[id_j as int] == RecordModel {
                name: names[j],
                stage: stage_after(bytes_j),
            }
            &&& selected.reaction(MsgModel::LoadedBytes(id_i, bytes_i)) == Action::Release(
                id_i as usize,
            )
            &&& one_done.reaction(MsgModel::LoadedBytes(id_j, bytes_j)) == Action::Release(
                id_j as usize,
            )
            &&& match (
                rendition_of(bytes_i, ASCII_RESOLUTION as nat),
                rendition_of(bytes_j, ASCII_RESOLUTION as nat),
            ) {
                (Ok(one), Ok(other)) => {
                    &&& both_done.files == s.files.push(one.picture).push(one.negative).push(
                        other.picture,
                    ).push(other.negative)
                    &&& both_done.asciis == s.asciis.push(one.ascii).push(other.ascii)
                },
                _ => true,
            }
        }),
{
}

/// What a file that can be rendered adds to the page. When a pending request
/// delivers bytes that decode to a grid no smaller than the resolution, whose
/// negative the encoder accepts, and both files are short enough for base64,
/// then its record becomes `Rendered`, the display gains the file itself and
/// the PNG file of the negative, both in base64, and the text of the grid
/// resampled by the resolution. Where the codec loses nothing of the negative,
/// that PNG file decodes to the negative, and the negative of what it decodes
/// to is the grid again.
pub proof fn lemma_rendered_file_is_shown(
    s: ComponentModel,
    id: nat,
    bytes: Seq<u8>,
    grid: GridModel,
    file: Seq<u8>,
)
    ensures
        ({
            &&& s.is_pending(id)
            &&& decoding(bytes) == Some(grid)
            &&& ASCII_RESOLUTION <= grid.width
            &&& ASCII_RESOLUTION <= grid.height
            &&& encoding(inverted(grid)) == Some(file)
            &&& base64_fits(bytes.len())
            &&& base64_fits(file.len())
        }) ==> ({
            let after = s.step(MsgModel::LoadedBytes(id, bytes));
            let resolution = ASCII_RESOLUTION as nat;
            &&& after.files == s.files.push(base64_text(bytes)).push(base64_text(file))
            &&& after.asciis == s.asciis.push(
                grid_text(downsampled(grid, grid.width / resolution, grid.height / resolution)),
            )
            &&& after.records == s.records.update(
                id as int,
                RecordModel { name: s.records[id as int].name, stage: Stage::Rendered },
            )
            &&& lossless_on(inverted(grid)) ==> decoding(file) == Some(inverted(grid)) && inverted(
                decoding(file).unwrap(),
            ) == grid
        }),
{
    lemma_decoded_grid_is_wf(bytes);
    if decoding(bytes) == Some(grid) {
        lemma_inverted_wf(grid);
        lemma_invert_involution(grid);
        lemma_faithful_file_decodes_to_its_grid(inverted(grid), file);
    }
}

/// The display only grows, and a request ends once. After any message the
/// pictures and renditions shown before are still shown, first and in the
/// same order; every record is still there under its name; a record that was
/// not pending is unchanged; and where there were two pictures on display for
/// every rendition, there still are.
pub proof fn lemma_step_keeps_what_is_shown(s: ComponentModel, msg: MsgModel)
    ensures
        s.files.len() == 2 * s.asciis.len() ==> s.step(msg).files.len() == 2 * s.step(
            msg,
        ).asciis.len(),
        s.files.is_prefix_of(s.step(msg).files),
        s.asciis.is_prefix_of(s.step(msg).asciis),
        s.records.len() <= s.step(msg).records.len(),
        forall|k: int|
            0 <= k < s.records.len() ==> (#[trigger] s.step(msg).records[k]).name
                == s.records[k].name,
        forall|k: int|
            0 <= k < s.records.len() && !s.is_pending(k as nat) ==> #[trigger] s.step(
                msg,
            ).records[k] == s.records[k],
{
    let t = s.step(msg);
    assert(s.files =~= t.files.subrange(0, s.files.len() as int));
    assert(s.asciis =~= t.asciis.subrange(0, s.asciis.len() as int));
}

/// The page's state. Read requests are known by the place of their record,
/// which no other request ever has; two files of one name are two requests.
#[derive(Debug)]
pub struct FileDataComponent {
    files: Vec<String>,
    asciis: Vec<String>,
    records: Vec<FileRecord>,
}

impl View for FileDataComponent {
    type V = ComponentModel;

    closed spec fn view(&self) -> ComponentModel {
        ComponentModel {
            files: self.files.deep_view(),
            asciis: self.asciis.deep_view(),
            records: self.records.deep_view(),
        }
    }
}

impl DeepView for FileRecord {
    type V = RecordModel;

    open spec fn deep_view(&self) -> RecordModel {
        self@
    }
}

impl FileDataComponent {
    /// The state of a page on which nothing was selected yet.
    pub fn create() -> (component: FileDataComponent)
        ensures
            component@ == ComponentModel::empty(),
    {
        let component = FileDataComponent {
            files: Vec::new(),
            asciis: Vec::new(),
            records: Vec::new(),
        };
        assert(component@ =~~= ComponentModel::empty());
        component
    }

    /// The pictures on display, as base64 text, in the order of display.
    pub fn files(&self) -> (files: &Vec<String>)
        ensures
            files.deep_view() == self@.files,
    {
        &self.files
    }

    /// The ASCII renditions on display, in the order of display.
    pub fn asciis(&self) -> (asciis: &Vec<String>)
        ensures
            asciis.deep_view() == self@.asciis,
    {
        &self.asciis
    }

    /// One record for every file ever selected; the place of a record is the
    /// identifier of its read request.
    pub fn records(&self) -> (records: &Vec<FileRecord>)
        ensures
            records.deep_view() == self@.records,
    {
        &self.records
    }

    /// The address that shows a picture inline, given its PNG file in base64.
    pub fn view_file(data: &str) -> (uri: String)
        ensures
            uri@ == data_uri(data@),
    {
        let mut uri = String::from_str("data:image/png;base64,");
        uri.append(data);
        uri
    }

    fn set_stage(&mut self, id: usize, stage: Stage)
        requires
            id < old(self)@.records.len(),
        ensures
            final(self)@ == old(self)@.with_stage(id as nat, stage),
    {
        let name = self.records[id].name.clone();
        self.records.set(id, FileRecord { name, stage });
        assert(self.records.deep_view() =~= old(self).records.deep_view().update(
            id as int,
            RecordModel { name: old(self).records[id as int].name@, stage },
        ));
    }

    /// Takes a message in: the state moves by `step`, and the result says what
    /// the caller has to do.
    pub fn update(&mut self, msg: Msg) -> (action: Action)
        ensures
            final(self)@ == old(self)@.step(msg@),
            action == old(self)@.reaction(msg@),
    {
        match msg {
            Msg::Files(names) => {
                let first: usize = self.records.len();
                let count: usize = names.len();
                let mut i: usize = 0;
                while i < count
                    invariant
                        i <= count,
                        count == names@.len(),
                        self.files == old(self).files,
                        self.asciis == old(self).asciis,
                        self.records@.len() == first + i,
                        first == old(self).records@.len(),
                        self.records.deep_view() =~= old(self).records.deep_view() + Seq::new(
                            i as nat,
                            |k: int|
                                RecordModel {
                                    name: names.deep_view()[k],
                                    stage: Stage::ReadPending,
                                },
                        ),
                    decreases count - i,
                {
                    let ghost before = self.records.deep_view();
                    let name = names[i].clone();
                    self.records.push(FileRecord { name, stage: Stage::ReadPending });
                    assert(names.deep_view()[i as int] == names@[i as int]@);
                    assert(self.records.deep_view() =~= before.push(
                        RecordModel { name: names@[i as int]@, stage: Stage::ReadPending },
                    ));
                    i = i + 1;
                }
                Action::StartReads { first, count }
            },
            Msg::LoadedBytes(id, bytes) => {
                if id >= self.records.len() {
                    return Action::Nothing;
                }
                match self.records[id].stage {
                    Stage::ReadPending => {},
                    _ => {
                        return Action::Nothing;
                    },
                }
                match render_file(bytes.as_slice(), ASCII_RESOLUTION) {
                    Ok(shown) => {
                        self.files.push(shown.picture);
                        self.files.push(shown.negative);
                        self.asciis.push(shown.ascii);
                        self.set_stage(id, Stage::Rendered);
                        assert(self.files.deep_view() =~= old(self).files.deep_view().push(
                            shown.picture@,
                        ).push(shown.negative@));
                        assert(self.asciis.deep_view() =~= old(self).asciis.deep_view().push(
                            shown.ascii@,
                        ));
                    },
                    Err(e) => {
                        self.set_stage(id, Stage::Failed(e));
                    },
                }
                Action::Release(id)
            },
            Msg::ReadFailed(id) => {
                if id >= self.records.len() {
                    return Action::Nothing;
                }
                match self.records[id].stage {
                    Stage::ReadPending => {},
                    _ => {
                        return Action::Nothing;
                    },
                }
                self.set_stage(id, Stage::Failed(PipelineError::ReadError));
                Action::Release(id)
            },
        }
    }
}

} // verus!
