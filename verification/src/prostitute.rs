//! The prostitute aggregate: the profile of one member of the roster, with
//! her figure, questions, images and membership status.
//!
//! The profile's name and catchphrase are never blank, the image list never
//! holds a media id twice, and membership moves between joined and left.
//! Derived from the figure are a cup size and a set of figure tags.

use vstd::prelude::*;
use vstd::pervasive::VecAdditionalExecFns;
use crate::media::MediaId;
use crate::queue::{EventQueue, distinct_seq};
use crate::text;
use crate::time::Birthday;

verus! {

/// Identifier of a prostitute.
#[derive(Clone, Copy, Debug, PartialEq, Eq, Hash, Structural)]
pub struct ProstituteId(pub u64);

impl Default for ProstituteId {
    /// The zero id, used only by default-constructed aggregates.
    fn default() -> (r: Self)
        ensures
            r == ProstituteId(0),
    {
        ProstituteId(0)
    }
}

/// Blood types.
#[derive(Clone, Copy, Debug, PartialEq, Eq, Structural)]
pub enum BloodType {
    A,
    B,
    O,
    AB,
}

/// Cup sizes, smallest to largest.
#[derive(Clone, Copy, Debug, PartialEq, Eq, Structural)]
pub enum CupSize {
    AAA,
    AA,
    A,
    B,
    C,
    D,
    E,
    F,
    G,
    H,
    I,
    J,
    K,
    L,
    M,
    N,
    O,
    P,
    Q,
    R,
    S,
    T,
    U,
    V,
    W,
    X,
    Y,
    Z,
}

/// The cup size for a bust measurement: the ladder over the difference
/// between the top and under measurements, `AAA` when the top does not
/// exceed the under by more than six.
pub open spec fn cup_size_spec(top_bust: u16, under_bust: u16) -> CupSize {
    let d = top_bust - under_bust;
    if d <= 6 {
        CupSize::AAA
    } else if d <= 8 {
        CupSize::AA
    } else if d <= 11 {
        CupSize::A
    } else if d <= 13 {
        CupSize::B
    } else if d <= 16 {
        CupSize::C
    } else if d <= 18 {
        CupSize::D
    } else if d <= 21 {
        CupSize::E
    } else if d <= 23 {
        CupSize::F
    } else if d <= 26 {
        CupSize::G
    } else if d <= 28 {
        CupSize::H
    } else if d <= 31 {
        CupSize::I
    } else if d <= 33 {
        CupSize::J
    } else if d <= 36 {
        CupSize::K
    } else if d <= 38 {
        CupSize::L
    } else if d <= 41 {
        CupSize::M
    } else if d <= 43 {
        CupSize::N
    } else if d <= 46 {
        CupSize::O
    } else if d <= 48 {
        CupSize::P
    } else if d <= 51 {
        CupSize::Q
    } else if d <= 53 {
        CupSize::R
    } else if d <= 56 {
        CupSize::S
    } else if d <= 58 {
        CupSize::T
    } else if d <= 61 {
        CupSize::U
    } else if d <= 63 {
        CupSize::V
    } else if d <= 66 {
        CupSize::W
    } else if d <= 68 {
        CupSize::X
    } else if d <= 71 {
        CupSize::Y
    } else {
        CupSize::Z
    }
}

impl CupSize {
    /// The cup size for a top and under bust measurement in centimetres.
    pub fn new(top_bust: u16, under_bust: u16) -> (r: CupSize)
        ensures
            r == cup_size_spec(top_bust, under_bust),
    {
        if top_bust < under_bust {
            return CupSize::AAA;
        }
        let d = top_bust - under_bust;
        if d <= 6 {
            CupSize::AAA
        } else if d <= 8 {
            CupSize::AA
        } else if d <= 11 {
            CupSize::A
        } else if d <= 13 {
            CupSize::B
        } else if d <= 16 {
            CupSize::C
        } else if d <= 18 {
            CupSize::D
        } else if d <= 21 {
            CupSize::E
        } else if d <= 23 {
            CupSize::F
        } else if d <= 26 {
            CupSize::G
        } else if d <= 28 {
            CupSize::H
        } else if d <= 31 {
            CupSize::I
        } else if d <= 33 {
            CupSize::J
        } else if d <= 36 {
            CupSize::K
        } else if d <= 38 {
            CupSize::L
        } else if d <= 41 {
            CupSize::M
        } else if d <= 43 {
            CupSize::N
        } else if d <= 46 {
            CupSize::O
        } else if d <= 48 {
            CupSize::P
        } else if d <= 51 {
            CupSize::Q
        } else if d <= 53 {
            CupSize::R
        } else if d <= 56 {
            CupSize::S
        } else if d <= 58 {
            CupSize::T
        } else if d <= 61 {
            CupSize::U
        } else if d <= 63 {
            CupSize::V
        } else if d <= 66 {
            CupSize::W
        } else if d <= 68 {
            CupSize::X
        } else if d <= 71 {
            CupSize::Y
        } else {
            CupSize::Z
        }
    }
}

/// A bust measurement: the top measurement, and the under measurement when
/// it was taken.
#[derive(Clone, Copy, Debug, PartialEq, Eq, Structural)]
pub struct Bust {
    pub top: u16,
    pub under: Option<u16>,
}

/// The cup size of a bust, when the under measurement is known.
pub open spec fn bust_cup_size(b: Bust) -> Option<CupSize> {
    match b.under {
        Some(u) => Some(cup_size_spec(b.top, u)),
        None => None,
    }
}

impl Bust {
    /// The cup size, when the under measurement is known.
    pub fn cup_size(&self) -> (r: Option<CupSize>)
        ensures
            r == bust_cup_size(*self),
    {
        match self.under {
            Some(u) => Some(CupSize::new(self.top, u)),
            None => None,
        }
    }
}

/// The three measurements, in centimetres.
#[derive(Clone, Copy, Debug, PartialEq, Eq, Structural)]
pub struct VitalStatistics {
    pub bust: Bust,
    pub waist: u16,
    pub hip: u16,
}

/// A figure: any of the measurements, an explicit cup size, height and
/// weight may be missing.
#[derive(Clone, Copy, Debug, PartialEq, Eq, Structural)]
pub struct Figure {
    pub vital_statistics: Option<VitalStatistics>,
    pub cup_size: Option<CupSize>,
    pub height: Option<u16>,
    pub weight: Option<u16>,
}

impl Default for Figure {
    /// A figure with nothing measured.
    fn default() -> (r: Figure)
        ensures
            r == (Figure { vital_statistics: None, cup_size: None, height: None, weight: None }),
    {
        Figure { vital_statistics: None, cup_size: None, height: None, weight: None }
    }
}

/// Descriptive figure tags.
#[derive(Clone, Copy, Debug, PartialEq, Eq, Structural)]
pub enum FigureType {
    Slender,
    Plump,
    Petite,
    Tall,
    Normal,
    Voluptuous,
    Chubby,
}

/// Height below 155 cm.
pub open spec fn figure_is_petite(f: Figure) -> bool {
    match f.height {
        Some(h) => h < 155,
        None => false,
    }
}

/// Height at least 165 cm.
pub open spec fn figure_is_tall(f: Figure) -> bool {
    match f.height {
        Some(h) => h >= 165,
        None => false,
    }
}

/// Bust above 58 % of the height, waist below 43 % and hip above 58 %.
pub open spec fn figure_is_voluptuous(f: Figure) -> bool {
    match (f.height, f.vital_statistics) {
        (Some(h), Some(v)) => {
            100 * (v.bust.top as int) > 58 * (h as int) && 100 * (v.waist as int) < 43 * (h as int)
                && 100 * (v.hip as int) > 58 * (h as int)
        },
        _ => false,
    }
}

/// Body mass index below 18.5, i.e. weight over squared height in metres.
pub open spec fn figure_is_slender(f: Figure) -> bool {
    match (f.height, f.weight) {
        (Some(h), Some(w)) => 20000 * (w as int) < 37 * ((h as int) * (h as int)),
        _ => false,
    }
}

/// Body mass index at least 23 and below 25.
pub open spec fn figure_is_plump(f: Figure) -> bool {
    match (f.height, f.weight) {
        (Some(h), Some(w)) => 10000 * (w as int) >= 23 * ((h as int) * (h as int)) && 10000
            * (w as int) < 25 * ((h as int) * (h as int)),
        _ => false,
    }
}

/// Body mass index at least 25.
pub open spec fn figure_is_chubby(f: Figure) -> bool {
    match (f.height, f.weight) {
        (Some(h), Some(w)) => 10000 * (w as int) >= 25 * ((h as int) * (h as int)),
        _ => false,
    }
}

/// Height and weight are both given but no other tag fired.
pub open spec fn figure_is_normal(f: Figure) -> bool {
    f.height is Some && f.weight is Some && !figure_is_petite(f) && !figure_is_tall(f)
        && !figure_is_voluptuous(f) && !figure_is_slender(f) && !figure_is_plump(f)
        && !figure_is_chubby(f)
}

/// The one-element sequence of `t` when `cond` holds, else empty.
pub open spec fn tag_if(cond: bool, t: FigureType) -> Seq<FigureType> {
    if cond {
        seq![t]
    } else {
        Seq::empty()
    }
}

/// The figure tags, in the fixed order petite, tall, voluptuous, slender,
/// plump, chubby, normal.
pub open spec fn figure_tags(f: Figure) -> Seq<FigureType> {
    tag_if(figure_is_petite(f), FigureType::Petite) + tag_if(figure_is_tall(f), FigureType::Tall)
        + tag_if(figure_is_voluptuous(f), FigureType::Voluptuous) + tag_if(
        figure_is_slender(f),
        FigureType::Slender,
    ) + tag_if(figure_is_plump(f), FigureType::Plump) + tag_if(
        figure_is_chubby(f),
        FigureType::Chubby,
    ) + tag_if(figure_is_normal(f), FigureType::Normal)
}

impl Figure {
    /// The explicit cup size if set, else the one derived from the bust.
    pub fn cup_size(&self) -> (r: Option<CupSize>)
        ensures
            r == figure_cup_size(*self),
    {
        match self.cup_size {
            Some(c) => Some(c),
            None => match &self.vital_statistics {
                Some(v) => v.bust.cup_size(),
                None => None,
            },
        }
    }

    /// The figure tags that apply, in a fixed order.
    pub fn figure_type(&self) -> (r: Vec<FigureType>)
        ensures
            r@ == figure_tags(*self),
    {
        let f = *self;
        let petite: bool = match f.height {
            Some(h) => h < 155,
            None => false,
        };
        let tall: bool = match f.height {
            Some(h) => h >= 165,
            None => false,
        };
        let voluptuous: bool = match (f.height, f.vital_statistics) {
            (Some(h), Some(v)) => 100 * (v.bust.top as u64) > 58 * (h as u64) && 100 * (
            v.waist as u64) < 43 * (h as u64) && 100 * (v.hip as u64) > 58 * (h as u64),
            _ => false,
        };
        let measured: bool = f.height.is_some() && f.weight.is_some();
        let mut slender: bool = false;
        let mut plump: bool = false;
        let mut chubby: bool = false;
        if let (Some(h), Some(w)) = (f.height, f.weight) {
            proof {
                assert((h as u64) * (h as u64) <= 4294836225u64) by (nonlinear_arith)
                    requires
                        h as u64 <= 65535u64,
                ;
            }
            let h2 = (h as u64) * (h as u64);
            slender = 20000 * (w as u64) < 37 * h2;
            plump = 10000 * (w as u64) >= 23 * h2 && 10000 * (w as u64) < 25 * h2;
            chubby = 10000 * (w as u64) >= 25 * h2;
        }
        proof {
            assert(petite == figure_is_petite(f));
            assert(tall == figure_is_tall(f));
            assert(voluptuous == figure_is_voluptuous(f));
            assert(slender == figure_is_slender(f));
            assert(plump == figure_is_plump(f));
            assert(chubby == figure_is_chubby(f));
        }
        let normal: bool = measured && !petite && !tall && !voluptuous && !slender && !plump
            && !chubby;
        let mut result: Vec<FigureType> = Vec::new();
        if petite {
            result.push(FigureType::Petite);
        }
        proof {
            assert(result@ =~= tag_if(petite, FigureType::Petite));
        }
        if tall {
            result.push(FigureType::Tall);
        }
        proof {
            assert(result@ =~= tag_if(petite, FigureType::Petite) + tag_if(tall, FigureType::Tall));
        }
        if voluptuous {
            result.push(FigureType::Voluptuous);
        }
        proof {
            assert(result@ =~= tag_if(petite, FigureType::Petite) + tag_if(tall, FigureType::Tall) + tag_if(
                voluptuous,
                FigureType::Voluptuous,
            ));
        }
        if slender {
            result.push(FigureType::Slender);
        }
        proof {
            assert(result@ =~= tag_if(petite, FigureType::Petite) + tag_if(tall, FigureType::Tall) + tag_if(
                voluptuous,
                FigureType::Voluptuous,
            ) + tag_if(slender, FigureType::Slender));
        }
        if plump {
            result.push(FigureType::Plump);
        }
        proof {
            assert(result@ =~= tag_if(petite, FigureType::Petite) + tag_if(tall, FigureType::Tall) + tag_if(
                voluptuous,
                FigureType::Voluptuous,
            ) + tag_if(slender, FigureType::Slender) + tag_if(plump, FigureType::Plump));
        }
        if chubby {
            result.push(FigureType::Chubby);
        }
        proof {
            assert(result@ =~= tag_if(petite, FigureType::Petite) + tag_if(tall, FigureType::Tall) + tag_if(
                voluptuous,
                FigureType::Voluptuous,
            ) + tag_if(slender, FigureType::Slender) + tag_if(plump, FigureType::Plump) + tag_if(
                chubby,
                FigureType::Chubby,
            ));
        }
        if normal {
            result.push(FigureType::Normal);
        }
        proof {
            assert(normal == figure_is_normal(f));
            assert(result@ =~= tag_if(petite, FigureType::Petite) + tag_if(tall, FigureType::Tall) + tag_if(
                voluptuous,
                FigureType::Voluptuous,
            ) + tag_if(slender, FigureType::Slender) + tag_if(plump, FigureType::Plump) + tag_if(
                chubby,
                FigureType::Chubby,
            ) + tag_if(normal, FigureType::Normal));
            assert(result@ =~= figure_tags(f));
        }
        result
    }
}

/// The explicit cup size if set, else the one derived from the bust.
pub open spec fn figure_cup_size(f: Figure) -> Option<CupSize> {
    match f.cup_size {
        Some(c) => Some(c),
        None => match f.vital_statistics {
            Some(v) => bust_cup_size(v.bust),
            None => None,
        },
    }
}

/// One question of the profile questionnaire, with its answer.
#[derive(Debug, PartialEq, Eq)]
pub struct Question {
    pub question: String,
    pub answer: String,
}

impl Question {
    /// A copy holding the same text.
    pub fn duplicate(&self) -> (r: Question)
        ensures
            r == *self,
    {
        Question { question: self.question.clone(), answer: self.answer.clone() }
    }
}

/// A copy of a questionnaire, holding the same questions.
pub fn clone_questions(v: &Vec<Question>) -> (r: Vec<Question>)
    ensures
        r@ == v@,
{
    let mut r: Vec<Question> = Vec::new();
    let n = v.len();
    let mut i: usize = 0;
    while i < n
        invariant
            0 <= i <= n,
            n == v@.len(),
            r@ =~= v@.subrange(0, i as int),
        decreases n - i,
    {
        r.push(v[i].duplicate());
        i = i + 1;
    }
    proof {
        assert(r@ =~= v@);
    }
    r
}

/// Whether `v` holds `id`.
pub fn media_ids_contains(v: &Vec<MediaId>, id: MediaId) -> (r: bool)
    ensures
        r == v@.contains(id),
{
    let n = v.len();
    let mut i: usize = 0;
    while i < n
        invariant
            0 <= i <= n,
            n == v@.len(),
            forall|j: int| 0 <= j < i ==> v@[j] != id,
        decreases n - i,
    {
        if v[i].0 == id.0 {
            proof {
                assert(v@[i as int] == id);
            }
            return true;
        }
        i = i + 1;
    }
    false
}

/// Whether no media id occurs twice in `v`.
pub fn media_ids_distinct(v: &Vec<MediaId>) -> (r: bool)
    ensures
        r == distinct_seq(v@),
{
    let n = v.len();
    let mut i: usize = 0;
    while i < n
        invariant
            0 <= i <= n,
            n == v@.len(),
            forall|p: int, q: int| 0 <= p < q < i ==> v@[p] != v@[q],
        decreases n - i,
    {
        let mut j: usize = 0;
        while j < i
            invariant
                0 <= j <= i < n,
                n == v@.len(),
                forall|p: int| 0 <= p < j ==> v@[p] != v@[i as int],
            decreases i - j,
        {
            if v[j].0 == v[i].0 {
                proof {
                    assert(v@[j as int] == v@[i as int]);
                    assert(!distinct_seq(v@));
                }
                return false;
            }
            j = j + 1;
        }
        i = i + 1;
    }
    true
}

/// Events of the prostitute aggregate.
#[derive(Debug, PartialEq, Eq)]
pub enum ProstituteEvent {
    /// She joined the roster. Establishes the aggregate's identity.
    Joined {
        id: ProstituteId,
        name: String,
        catchphrase: String,
        profile: String,
        message: String,
        figure: Figure,
        blood: Option<BloodType>,
        birthday: Option<Birthday>,
        questions: Vec<Question>,
        images: Vec<MediaId>,
        video: Option<MediaId>,
    },
    /// She came back after leaving.
    Rejoined { id: ProstituteId },
    /// She left.
    Leaved { id: ProstituteId },
    /// Her name changed.
    NameChanged { id: ProstituteId, name: String },
    /// Her catchphrase changed.
    CatchphraseChanged { id: ProstituteId, catchphrase: String },
    /// Her profile text changed.
    ProfileChanged { id: ProstituteId, profile: String },
    /// Her message changed.
    MessageChanged { id: ProstituteId, message: String },
    /// Her figure changed.
    FigureChanged { id: ProstituteId, figure: Figure },
    /// Her blood type changed.
    BloodTypeChanged { id: ProstituteId, blood: Option<BloodType> },
    /// Her birthday changed.
    BirthdayChanged { id: ProstituteId, birthday: Option<Birthday> },
    /// The whole questionnaire was replaced.
    QuestionsChanged { id: ProstituteId, questions: Vec<Question> },
    /// One question was appended.
    QuestionAdded { id: ProstituteId, question: Question },
    /// The question at `index` was removed.
    QuestionDeleted { id: ProstituteId, index: usize },
    /// The questions at the two indexes changed places.
    QuestionSwapped { id: ProstituteId, index_a: usize, index_b: usize },
    /// The whole image list was replaced.
    ImagesChanged { id: ProstituteId, media_ids: Vec<MediaId> },
    /// One image was appended.
    ImageAdded { id: ProstituteId, media_id: MediaId },
    /// One image was removed.
    ImageDeleted { id: ProstituteId, media_id: MediaId },
    /// The two images changed places.
    ImageSwapped { id: ProstituteId, media_id_a: MediaId, media_id_b: MediaId },
    /// The video was replaced or removed.
    VideoChanged { id: ProstituteId, media_id: Option<MediaId> },
    /// The profile was removed; emitted as a tombstone before stream
    /// deletion.
    Deleted { id: ProstituteId },
}

/// Validation failures of prostitute commands.
#[derive(Clone, Copy, Debug, PartialEq, Eq, Structural)]
pub enum ProstituteError {
    /// The event names another aggregate.
    MismatchedId,
    /// She has already left.
    AlreadyLeft,
    /// She is already on the roster.
    AlreadyJoined,
    /// The name is empty or white space only.
    NameIsBlank,
    /// The catchphrase is empty or white space only.
    CatchphraseIsBlank,
    /// No question at that index.
    QuestionNotFound,
    /// The two question indexes are the same.
    DuplicateQuestionIndex,
    /// The image is already in the list.
    DuplicateImage,
    /// The image is not in the list.
    ImageNotFound,
    /// The two image ids are the same.
    DuplicateImageIndex,
}

/// The state of a prostitute aggregate, event queue left out.
pub struct ProstituteState {
    pub id: ProstituteId,
    pub name: Seq<char>,
    pub catchphrase: Seq<char>,
    pub profile: Seq<char>,
    pub message: Seq<char>,
    pub figure: Figure,
    pub blood: Option<BloodType>,
    pub birthday: Option<Birthday>,
    pub questions: Seq<Question>,
    pub images: Seq<MediaId>,
    pub video: Option<MediaId>,
    pub leaved: bool,
}

/// The state of a default-constructed aggregate, before any event.
pub open spec fn prostitute_default_state() -> ProstituteState {
    ProstituteState {
        id: ProstituteId(0),
        name: Seq::empty(),
        catchphrase: Seq::empty(),
        profile: Seq::empty(),
        message: Seq::empty(),
        figure: Figure { vital_statistics: None, cup_size: None, height: None, weight: None },
        blood: None,
        birthday: None,
        questions: Seq::empty(),
        images: Seq::empty(),
        video: None,
        leaved: false,
    }
}

/// What `validate` decides for each event.
pub open spec fn prostitute_validate(s: ProstituteState, e: ProstituteEvent) -> Result<
    (),
    ProstituteError,
> {
    match e {
        ProstituteEvent::Joined { name, catchphrase, images, .. } => {
            if text::blank(name@) {
                Err(ProstituteError::NameIsBlank)
            } else if text::blank(catchphrase@) {
                Err(ProstituteError::CatchphraseIsBlank)
            } else if !distinct_seq(images@) {
                Err(ProstituteError::DuplicateImage)
            } else {
                Ok(())
            }
        },
        ProstituteEvent::Rejoined { id } => {
            if id != s.id {
                Err(ProstituteError::MismatchedId)
            } else if !s.leaved {
                Err(ProstituteError::AlreadyJoined)
            } else {
                Ok(())
            }
        },
        ProstituteEvent::Leaved { id } => {
            if id != s.id {
                Err(ProstituteError::MismatchedId)
            } else if s.leaved {
                Err(ProstituteError::AlreadyLeft)
            } else {
                Ok(())
            }
        },
        ProstituteEvent::NameChanged { id, name } => {
            if id != s.id {
                Err(ProstituteError::MismatchedId)
            } else if text::blank(name@) {
                Err(ProstituteError::NameIsBlank)
            } else {
                Ok(())
            }
        },
        ProstituteEvent::CatchphraseChanged { id, catchphrase } => {
            if id != s.id {
                Err(ProstituteError::MismatchedId)
            } else if text::blank(catchphrase@) {
                Err(ProstituteError::CatchphraseIsBlank)
            } else {
                Ok(())
            }
        },
        ProstituteEvent::ProfileChanged { id, .. } => {
            if id != s.id {
                Err(ProstituteError::MismatchedId)
            } else {
                Ok(())
            }
        },
        ProstituteEvent::MessageChanged { id, .. } => {
            if id != s.id {
                Err(ProstituteError::MismatchedId)
            } else {
                Ok(())
            }
        },
        ProstituteEvent::FigureChanged { id, .. } => {
            if id != s.id {
                Err(ProstituteError::MismatchedId)
            } else {
                Ok(())
            }
        },
        ProstituteEvent::BloodTypeChanged { id, .. } => {
            if id != s.id {
                Err(ProstituteError::MismatchedId)
            } else {
                Ok(())
            }
        },
        ProstituteEvent::BirthdayChanged { id, .. } => {
            if id != s.id {
                Err(ProstituteError::MismatchedId)
            } else {
                Ok(())
            }
        },
        ProstituteEvent::QuestionsChanged { id, .. } => {
            if id != s.id {
                Err(ProstituteError::MismatchedId)
            } else {
                Ok(())
            }
        },
        ProstituteEvent::QuestionAdded { id, .. } => {
            if id != s.id {
                Err(ProstituteError::MismatchedId)
            } else {
                Ok(())
            }
        },
        ProstituteEvent::QuestionDeleted { id, index } => {
            if id != s.id {
                Err(ProstituteError::MismatchedId)
            } else if index >= s.questions.len() {
                Err(ProstituteError::QuestionNotFound)
            } else {
                Ok(())
            }
        },
        ProstituteEvent::QuestionSwapped { id, index_a, index_b } => {
            if id != s.id {
                Err(ProstituteError::MismatchedId)
            } else if index_a >= s.questions.len() {
                Err(ProstituteError::QuestionNotFound)
            } else if index_b >= s.questions.len() {
                Err(ProstituteError::QuestionNotFound)
            } else if index_a == index_b {
                Err(ProstituteError::DuplicateQuestionIndex)
            } else {
                Ok(())
            }
        },
        ProstituteEvent::ImagesChanged { id, media_ids } => {
            if id != s.id {
                Err(ProstituteError::MismatchedId)
            } else if !distinct_seq(media_ids@) {
                Err(ProstituteError::DuplicateImage)
            } else {
                Ok(())
            }
        },
        ProstituteEvent::ImageAdded { id, media_id } => {
            if id != s.id {
                Err(ProstituteError::MismatchedId)
            } else if s.images.contains(media_id) {
                Err(ProstituteError::DuplicateImage)
            } else {
                Ok(())
            }
        },
        ProstituteEvent::ImageDeleted { id, media_id } => {
            if id != s.id {
                Err(ProstituteError::MismatchedId)
            } else if !s.images.contains(media_id) {
                Err(ProstituteError::ImageNotFound)
            } else {
                Ok(())
            }
        },
        ProstituteEvent::ImageSwapped { id, media_id_a, media_id_b } => {
            if id != s.id {
                Err(ProstituteError::MismatchedId)
            } else if !s.images.contains(media_id_a) {
                Err(ProstituteError::ImageNotFound)
            } else if !s.images.contains(media_id_b) {
                Err(ProstituteError::ImageNotFound)
            } else if media_id_a == media_id_b {
                Err(ProstituteError::DuplicateImageIndex)
            } else {
                Ok(())
            }
        },
        ProstituteEvent::VideoChanged { id, .. } => {
            if id != s.id {
                Err(ProstituteError::MismatchedId)
            } else {
                Ok(())
            }
        },
        ProstituteEvent::Deleted { id } => {
            if id != s.id {
                Err(ProstituteError::MismatchedId)
            } else {
                Ok(())
            }
        },
    }
}

/// `m` with the two ids exchanged: `a` becomes `b`, `b` becomes `a`,
/// anything else stays.
pub open spec fn exchange_id(m: MediaId, a: MediaId, b: MediaId) -> MediaId {
    if m == a {
        b
    } else if m == b {
        a
    } else {
        m
    }
}

/// `s` with every position of `id` removed.
pub open spec fn remove_media(s: Seq<MediaId>, id: MediaId) -> Seq<MediaId>
    decreases s.len(),
{
    if s.len() == 0 {
        Seq::empty()
    } else {
        let rest = remove_media(s.drop_last(), id);
        if s.last() == id {
            rest
        } else {
            rest.push(s.last())
        }
    }
}

/// What `apply` does to the state. Total: out-of-range question indexes
/// leave the questionnaire unchanged, and the image exchange is a plain
/// map over the list.
pub open spec fn prostitute_step(s: ProstituteState, e: ProstituteEvent) -> ProstituteState {
    match e {
        ProstituteEvent::Joined {
            id,
            name,
            catchphrase,
            profile,
            message,
            figure,
            blood,
            birthday,
            questions,
            images,
            video,
        } => {
            ProstituteState {
                id,
                name: name@,
                catchphrase: catchphrase@,
                profile: profile@,
                message: message@,
                figure,
                blood,
                birthday,
                questions: questions@,
                images: images@,
                video,
                leaved: false,
            }
        },
        ProstituteEvent::Rejoined { .. } => ProstituteState { leaved: false, ..s },
        ProstituteEvent::Leaved { .. } => ProstituteState { leaved: true, ..s },
        ProstituteEvent::NameChanged { name, .. } => ProstituteState { name: name@, ..s },
        ProstituteEvent::CatchphraseChanged { catchphrase, .. } => ProstituteState {
            catchphrase: catchphrase@,
            ..s
        },
        ProstituteEvent::ProfileChanged { profile, .. } => ProstituteState {
            profile: profile@,
            ..s
        },
        ProstituteEvent::MessageChanged { message, .. } => ProstituteState {
            message: message@,
            ..s
        },
        ProstituteEvent::FigureChanged { figure, .. } => ProstituteState { figure, ..s },
        ProstituteEvent::BloodTypeChanged { blood, .. } => ProstituteState { blood, ..s },
        ProstituteEvent::BirthdayChanged { birthday, .. } => ProstituteState { birthday, ..s },
        ProstituteEvent::QuestionsChanged { questions, .. } => ProstituteState {
            questions: questions@,
            ..s
        },
        ProstituteEvent::QuestionAdded { question, .. } => ProstituteState {
            questions: s.questions.push(question),
            ..s
        },
        ProstituteEvent::QuestionDeleted { index, .. } => {
            if index < s.questions.len() {
                ProstituteState { questions: s.questions.remove(index as int), ..s }
            } else {
                s
            }
        },
        ProstituteEvent::QuestionSwapped { index_a, index_b, .. } => {
            if index_a < s.questions.len() && index_b < s.questions.len() {
                ProstituteState {
                    questions: s.questions.update(index_a as int, s.questions[index_b as int])
                        .update(index_b as int, s.questions[index_a as int]),
                    ..s
                }
            } else {
                s
            }
        },
        ProstituteEvent::ImagesChanged { media_ids, .. } => ProstituteState {
            images: media_ids@,
            ..s
        },
        ProstituteEvent::ImageAdded { media_id, .. } => ProstituteState {
            images: s.images.push(media_id),
            ..s
        },
        ProstituteEvent::ImageDeleted { media_id, .. } => ProstituteState {
            images: remove_media(s.images, media_id),
            ..s
        },
        ProstituteEvent::ImageSwapped { media_id_a, media_id_b, .. } => ProstituteState {
            images: Seq::new(
                s.images.len(),
                |i: int| exchange_id(s.images[i], media_id_a, media_id_b),
            ),
            ..s
        },
        ProstituteEvent::VideoChanged { media_id, .. } => ProstituteState { video: media_id, ..s },
        ProstituteEvent::Deleted { .. } => s,
    }
}

/// The state reached by applying `es` in order, oldest first, to `s`.
pub open spec fn prostitute_replay(s: ProstituteState, es: Seq<ProstituteEvent>) -> ProstituteState
    decreases es.len(),
{
    if es.len() == 0 {
        s
    } else {
        prostitute_replay(prostitute_step(s, es[0]), es.drop_first())
    }
}

/// A run of successful commands from `s0` to `sn`.
pub open spec fn prostitute_trace(
    s0: ProstituteState,
    es: Seq<ProstituteEvent>,
    sn: ProstituteState,
) -> bool
    decreases es.len(),
{
    if es.len() == 0 {
        sn == s0
    } else {
        prostitute_validate(s0, es[0]) is Ok && prostitute_trace(
            prostitute_step(s0, es[0]),
            es.drop_first(),
            sn,
        )
    }
}

/// Replay fidelity: a fresh aggregate fed the events a run of successful
/// commands emitted, oldest first, reaches the state those commands built.
pub proof fn lemma_replay_fidelity(
    s0: ProstituteState,
    es: Seq<ProstituteEvent>,
    sn: ProstituteState,
)
    requires
        prostitute_trace(s0, es, sn),
    ensures
        sn == prostitute_replay(s0, es),
    decreases es.len(),
{
    if es.len() > 0 {
        lemma_replay_fidelity(prostitute_step(s0, es[0]), es.drop_first(), sn);
    }
}

/// The aggregate's invariant: once created, the name and catchphrase are
/// not blank and no image id occurs twice.
pub open spec fn prostitute_inv(s: ProstituteState) -> bool {
    s.id != ProstituteId(0) ==> !text::blank(s.name) && !text::blank(s.catchphrase) && distinct_seq(
        s.images,
    )
}

/// Removing every position of one id keeps the remaining ids distinct.
proof fn lemma_remove_media_distinct(s: Seq<MediaId>, id: MediaId)
    requires
        distinct_seq(s),
    ensures
        distinct_seq(remove_media(s, id)),
        forall|m: MediaId| remove_media(s, id).contains(m) ==> s.contains(m),
    decreases s.len(),
{
    if s.len() > 0 {
        assert(distinct_seq(s.drop_last())) by {
            assert forall|i: int, j: int|
                0 <= i < j < s.drop_last().len() implies s.drop_last()[i] != s.drop_last()[j] by {
                assert(s[i] != s[j]);
            }
        }
        lemma_remove_media_distinct(s.drop_last(), id);
        let rest = remove_media(s.drop_last(), id);
        if s.last() != id {
            assert forall|m: MediaId| rest.push(s.last()).contains(m) implies s.contains(m) by {
                let k = choose|k: int| 0 <= k < rest.push(s.last()).len() && rest.push(s.last())[k]
                    == m;
                if k < rest.len() {
                    assert(rest.contains(m));
                    assert(s.drop_last().contains(m));
                    let k2 = choose|k2: int|
                        0 <= k2 < s.drop_last().len() && s.drop_last()[k2] == m;
                    assert(s[k2] == m);
                } else {
                    assert(s[s.len() - 1] == m);
                }
            }
            assert forall|i: int, j: int|
                0 <= i < j < rest.push(s.last()).len() implies rest.push(s.last())[i] != rest.push(
                s.last(),
            )[j] by {
                if j == rest.len() {
                    assert(rest.contains(rest[i]));
                    assert(s.drop_last().contains(rest[i]));
                    let k = choose|k: int|
                        0 <= k < s.drop_last().len() && s.drop_last()[k] == rest[i];
                    assert(s[k] == rest[i]);
                    assert(s[k] != s[s.len() - 1]);
                }
            }
        } else {
            assert forall|m: MediaId| rest.contains(m) implies s.contains(m) by {
                assert(s.drop_last().contains(m));
                let k2 = choose|k2: int| 0 <= k2 < s.drop_last().len() && s.drop_last()[k2] == m;
                assert(s[k2] == m);
            }
        }
    }
}

/// Validated events keep the invariant.
pub proof fn lemma_validate_preserves_inv(s: ProstituteState, e: ProstituteEvent)
    requires
        prostitute_inv(s),
        prostitute_validate(s, e) is Ok,
    ensures
        prostitute_inv(prostitute_step(s, e)),
{
    let s2 = prostitute_step(s, e);
    match e {
        ProstituteEvent::ImageAdded { media_id, .. } => {
            if s2.id != ProstituteId(0) {
                assert forall|i: int, j: int|
                    0 <= i < j < s2.images.len() implies s2.images[i] != s2.images[j] by {
                    if j == s.images.len() {
                        assert(!s.images.contains(s.images[i]) ==> false);
                    }
                }
            }
        },
        ProstituteEvent::ImageDeleted { media_id, .. } => {
            if s2.id != ProstituteId(0) {
                lemma_remove_media_distinct(s.images, media_id);
            }
        },
        ProstituteEvent::ImageSwapped { media_id_a, media_id_b, .. } => {
            if s2.id != ProstituteId(0) {
                assert forall|i: int, j: int|
                    0 <= i < j < s2.images.len() implies s2.images[i] != s2.images[j] by {
                    assert(s.images[i] != s.images[j]);
                    assert(s2.images[i] == exchange_id(s.images[i], media_id_a, media_id_b));
                    assert(s2.images[j] == exchange_id(s.images[j], media_id_a, media_id_b));
                }
            }
        },
        _ => {},
    }
}

/// Every state a run of successful commands reaches satisfies the
/// invariant.
pub proof fn lemma_trace_preserves_inv(s0: ProstituteState, es: Seq<ProstituteEvent>, sn: ProstituteState)
    requires
        prostitute_inv(s0),
        prostitute_trace(s0, es, sn),
    ensures
        prostitute_inv(sn),
    decreases es.len(),
{
    if es.len() > 0 {
        lemma_validate_preserves_inv(s0, es[0]);
        lemma_trace_preserves_inv(prostitute_step(s0, es[0]), es.drop_first(), sn);
    }
}

/// Id coherence: a non-creation event whose id differs from the state's is
/// rejected with `MismatchedId`.
pub proof fn lemma_id_coherence(s: ProstituteState, e: ProstituteEvent)
    requires
        !(e is Joined),
        match e {
            ProstituteEvent::Rejoined { id } => id != s.id,
            ProstituteEvent::Leaved { id } => id != s.id,
            ProstituteEvent::NameChanged { id, .. } => id != s.id,
            ProstituteEvent::CatchphraseChanged { id, .. } => id != s.id,
            ProstituteEvent::ProfileChanged { id, .. } => id != s.id,
            ProstituteEvent::MessageChanged { id, .. } => id != s.id,
            ProstituteEvent::FigureChanged { id, .. } => id != s.id,
            ProstituteEvent::BloodTypeChanged { id, .. } => id != s.id,
            ProstituteEvent::BirthdayChanged { id, .. } => id != s.id,
            ProstituteEvent::QuestionsChanged { id, .. } => id != s.id,
            ProstituteEvent::QuestionAdded { id, .. } => id != s.id,
            ProstituteEvent::QuestionDeleted { id, .. } => id != s.id,
            ProstituteEvent::QuestionSwapped { id, .. } => id != s.id,
            ProstituteEvent::ImagesChanged { id, .. } => id != s.id,
            ProstituteEvent::ImageAdded { id, .. } => id != s.id,
            ProstituteEvent::ImageDeleted { id, .. } => id != s.id,
            ProstituteEvent::ImageSwapped { id, .. } => id != s.id,
            ProstituteEvent::VideoChanged { id, .. } => id != s.id,
            ProstituteEvent::Deleted { id } => id != s.id,
            _ => false,
        },
    ensures
        prostitute_validate(s, e) == Err::<(), ProstituteError>(ProstituteError::MismatchedId),
{
}

/// A member profile.
#[derive(Debug)]
pub struct Prostitute {
    pub id: ProstituteId,
    pub name: String,
    pub catchphrase: String,
    pub profile: String,
    pub message: String,
    pub figure: Figure,
    pub blood: Option<BloodType>,
    pub birthday: Option<Birthday>,
    pub questions: Vec<Question>,
    pub images: Vec<MediaId>,
    pub video: Option<MediaId>,
    pub leaved: bool,
    pub events: EventQueue<ProstituteEvent>,
}

impl Prostitute {
    /// The abstract state: the fields without the event queue.
    pub open spec fn state(&self) -> ProstituteState {
        ProstituteState {
            id: self.id,
            name: self.name@,
            catchphrase: self.catchphrase@,
            profile: self.profile@,
            message: self.message@,
            figure: self.figure,
            blood: self.blood,
            birthday: self.birthday,
            questions: self.questions@,
            images: self.images@,
            video: self.video,
            leaved: self.leaved,
        }
    }

    /// Registers a new profile. The name and catchphrase must not be blank
    /// and the image list must hold no id twice; on success the aggregate
    /// starts from the given fields with the joining event queued.
    pub fn join(
        id: ProstituteId,
        name: String,
        catchphrase: String,
        profile: String,
        message: String,
        figure: Figure,
        blood: Option<BloodType>,
        birthday: Option<Birthday>,
        questions: Vec<Question>,
        images: Vec<MediaId>,
        video: Option<MediaId>,
    ) -> (r: Result<Self, ProstituteError>)
        ensures
            match r {
                Ok(a) => {
                    let e = ProstituteEvent::Joined {
                        id,
                        name,
                        catchphrase,
                        profile,
                        message,
                        figure,
                        blood,
                        birthday,
                        questions,
                        images,
                        video,
                    };
                    prostitute_validate(prostitute_default_state(), e) is Ok && a.state()
                        == prostitute_step(prostitute_default_state(), e) && a.events@ =~= seq![e]
                },
                Err(e) => (match e {
                    ProstituteError::NameIsBlank => text::blank(name@),
                    ProstituteError::CatchphraseIsBlank => !text::blank(name@) && text::blank(
                        catchphrase@,
                    ),
                    ProstituteError::DuplicateImage => !text::blank(name@) && !text::blank(
                        catchphrase@,
                    ) && !distinct_seq(images@),
                    _ => false,
                }),
            },
    {
        if text::is_blank(name.as_str()) {
            return Err(ProstituteError::NameIsBlank);
        }
        if text::is_blank(catchphrase.as_str()) {
            return Err(ProstituteError::CatchphraseIsBlank);
        }
        if !media_ids_distinct(&images) {
            return Err(ProstituteError::DuplicateImage);
        }
        let mut entity = Prostitute {
            id,
            name: name.clone(),
            catchphrase: catchphrase.clone(),
            profile: profile.clone(),
            message: message.clone(),
            figure,
            blood,
            birthday,
            questions: clone_questions(&questions),
            images: crate::queue::clone_vec(&images),
            video,
            leaved: false,
            events: EventQueue::new(),
        };
        entity.events.push(
            ProstituteEvent::Joined {
                id,
                name,
                catchphrase,
                profile,
                message,
                figure,
                blood,
                birthday,
                questions,
                images,
                video,
            },
        );
        Ok(entity)
    }

    /// The aggregate's id.
    pub fn id(&self) -> (r: ProstituteId)
        ensures
            r == self.id,
    {
        self.id
    }

    /// Marks a profile that had left as back on the roster and queues the
    /// event; fails with `AlreadyJoined` when she never left.
    pub fn rejoin(&mut self) -> (r: Result<(), ProstituteError>)
        ensures
            match r {
                Ok(()) => old(self).leaved && final(self).state() == (ProstituteState {
                    leaved: false,
                    ..old(self).state()
                }) && final(self).events@ == old(self).events@.push(
                    ProstituteEvent::Rejoined { id: old(self).id },
                ),
                Err(e) => e == ProstituteError::AlreadyJoined && !old(self).leaved && *final(self)
                    == *old(self),
            },
    {
        if !self.leaved {
            return Err(ProstituteError::AlreadyJoined);
        }
        self.leaved = false;
        let id = self.id;
        self.events.push(ProstituteEvent::Rejoined { id });
        Ok(())
    }

    /// Marks the profile as having left and queues the event; fails with
    /// `AlreadyLeft` when she already had.
    pub fn leave(&mut self) -> (r: Result<(), ProstituteError>)
        ensures
            match r {
                Ok(()) => !old(self).leaved && final(self).state() == (ProstituteState {
                    leaved: true,
                    ..old(self).state()
                }) && final(self).events@ == old(self).events@.push(
                    ProstituteEvent::Leaved { id: old(self).id },
                ),
                Err(e) => e == ProstituteError::AlreadyLeft && old(self).leaved && *final(self)
                    == *old(self),
            },
    {
        if self.leaved {
            return Err(ProstituteError::AlreadyLeft);
        }
        self.leaved = true;
        let id = self.id;
        self.events.push(ProstituteEvent::Leaved { id });
        Ok(())
    }

    /// Renames the profile; the new name must not be blank.
    pub fn change_name(&mut self, name: String) -> (r: Result<(), ProstituteError>)
        ensures
            match r {
                Ok(()) => !text::blank(name@) && final(self).state() == (ProstituteState {
                    name: name@,
                    ..old(self).state()
                }) && final(self).events@ == old(self).events@.push(
                    ProstituteEvent::NameChanged { id: old(self).id, name },
                ),
                Err(e) => e == ProstituteError::NameIsBlank && text::blank(name@) && *final(self)
                    == *old(self),
            },
    {
        if text::is_blank(name.as_str()) {
            return Err(ProstituteError::NameIsBlank);
        }
        self.name = name.clone();
        let id = self.id;
        self.events.push(ProstituteEvent::NameChanged { id, name });
        Ok(())
    }

    /// Replaces the catchphrase; the new one must not be blank.
    pub fn change_catchphrase(&mut self, catchphrase: String) -> (r: Result<(), ProstituteError>)
        ensures
            match r {
                Ok(()) => !text::blank(catchphrase@) && final(self).state() == (ProstituteState {
                    catchphrase: catchphrase@,
                    ..old(self).state()
                }) && final(self).events@ == old(self).events@.push(
                    ProstituteEvent::CatchphraseChanged { id: old(self).id, catchphrase },
                ),
                Err(e) => e == ProstituteError::CatchphraseIsBlank && text::blank(catchphrase@)
                    && *final(self) == *old(self),
            },
    {
        if text::is_blank(catchphrase.as_str()) {
            return Err(ProstituteError::CatchphraseIsBlank);
        }
        self.catchphrase = catchphrase.clone();
        let id = self.id;
        self.events.push(ProstituteEvent::CatchphraseChanged { id, catchphrase });
        Ok(())
    }

    /// Replaces the profile text and queues the matching event.
    pub fn change_profile(&mut self, profile: String)
        ensures
            final(self).state() == (ProstituteState { profile: profile@, ..old(self).state() }),
            final(self).events@ == old(self).events@.push(
                ProstituteEvent::ProfileChanged { id: old(self).id, profile },
            ),
    {
        self.profile = profile.clone();
        let id = self.id;
        self.events.push(ProstituteEvent::ProfileChanged { id, profile });
    }

    /// Replaces the message and queues the matching event.
    pub fn change_message(&mut self, message: String)
        ensures
            final(self).state() == (ProstituteState { message: message@, ..old(self).state() }),
            final(self).events@ == old(self).events@.push(
                ProstituteEvent::MessageChanged { id: old(self).id, message },
            ),
    {
        self.message = message.clone();
        let id = self.id;
        self.events.push(ProstituteEvent::MessageChanged { id, message });
    }

    /// Replaces the figure and queues the matching event.
    pub fn change_figure(&mut self, figure: Figure)
        ensures
            final(self).state() == (ProstituteState { figure, ..old(self).state() }),
            final(self).events@ == old(self).events@.push(
                ProstituteEvent::FigureChanged { id: old(self).id, figure },
            ),
    {
        self.figure = figure;
        let id = self.id;
        self.events.push(ProstituteEvent::FigureChanged { id, figure });
    }

    /// Replaces the blood type and queues the matching event.
    pub fn change_blood_type(&mut self, blood: Option<BloodType>)
        ensures
            final(self).state() == (ProstituteState { blood, ..old(self).state() }),
            final(self).events@ == old(self).events@.push(
                ProstituteEvent::BloodTypeChanged { id: old(self).id, blood },
            ),
    {
        self.blood = blood;
        let id = self.id;
        self.events.push(ProstituteEvent::BloodTypeChanged { id, blood });
    }

    /// Replaces the birthday and queues the matching event.
    pub fn change_birthday(&mut self, birthday: Option<Birthday>)
        ensures
            final(self).state() == (ProstituteState { birthday, ..old(self).state() }),
            final(self).events@ == old(self).events@.push(
                ProstituteEvent::BirthdayChanged { id: old(self).id, birthday },
            ),
    {
        self.birthday = birthday;
        let id = self.id;
        self.events.push(ProstituteEvent::BirthdayChanged { id, birthday });
    }

    /// Replaces the whole questionnaire and queues the matching event.
    pub fn change_questions(&mut self, questions: Vec<Question>)
        ensures
            final(self).state() == (ProstituteState {
                questions: questions@,
                ..old(self).state()
            }),
            final(self).events@ == old(self).events@.push(
                ProstituteEvent::QuestionsChanged { id: old(self).id, questions },
            ),
    {
        self.questions = clone_questions(&questions);
        let id = self.id;
        self.events.push(ProstituteEvent::QuestionsChanged { id, questions });
    }

    /// Appends one question and queues the matching event.
    pub fn add_question(&mut self, question: Question)
        ensures
            final(self).state() == (ProstituteState {
                questions: old(self).state().questions.push(question),
                ..old(self).state()
            }),
            final(self).events@ == old(self).events@.push(
                ProstituteEvent::QuestionAdded { id: old(self).id, question },
            ),
    {
        self.questions.push(question.duplicate());
        let id = self.id;
        self.events.push(ProstituteEvent::QuestionAdded { id, question });
    }

    /// Removes the question at `index`; fails with `QuestionNotFound` when
    /// there is none.
    pub fn delete_question(&mut self, index: usize) -> (r: Result<(), ProstituteError>)
        ensures
            match r {
                Ok(()) => index < old(self).questions@.len() && final(self).state() == (
                ProstituteState {
                    questions: old(self).state().questions.remove(index as int),
                    ..old(self).state()
                }) && final(self).events@ == old(self).events@.push(
                    ProstituteEvent::QuestionDeleted { id: old(self).id, index },
                ),
                Err(e) => e == ProstituteError::QuestionNotFound && index >= old(
                    self,
                ).questions@.len() && *final(self) == *old(self),
            },
    {
        if index >= self.questions.len() {
            return Err(ProstituteError::QuestionNotFound);
        }
        self.questions.remove(index);
        let id = self.id;
        self.events.push(ProstituteEvent::QuestionDeleted { id, index });
        Ok(())
    }

    /// Exchanges the questions at the two indexes; they must both exist and
    /// differ.
    pub fn swap_question(&mut self, index_a: usize, index_b: usize) -> (r: Result<
        (),
        ProstituteError,
    >)
        ensures
            match r {
                Ok(()) => index_a < old(self).questions@.len() && index_b < old(
                    self,
                ).questions@.len() && index_a != index_b && final(self).state() == (ProstituteState {
                    questions: old(self).state().questions.update(
                        index_a as int,
                        old(self).state().questions[index_b as int],
                    ).update(index_b as int, old(self).state().questions[index_a as int]),
                    ..old(self).state()
                }) && final(self).events@ == old(self).events@.push(
                    ProstituteEvent::QuestionSwapped { id: old(self).id, index_a, index_b },
                ),
                Err(e) => *final(self) == *old(self) && (match e {
                    ProstituteError::QuestionNotFound => index_a >= old(self).questions@.len()
                        || index_b >= old(self).questions@.len(),
                    ProstituteError::DuplicateQuestionIndex => index_a < old(
                        self,
                    ).questions@.len() && index_b < old(self).questions@.len() && index_a
                        == index_b,
                    _ => false,
                }),
            },
    {
        if index_a >= self.questions.len() || index_b >= self.questions.len() {
            return Err(ProstituteError::QuestionNotFound);
        }
        if index_a == index_b {
            return Err(ProstituteError::DuplicateQuestionIndex);
        }
        let qa = self.questions[index_a].duplicate();
        let qb = self.questions[index_b].duplicate();
        self.questions.set(index_a, qb);
        self.questions.set(index_b, qa);
        let id = self.id;
        self.events.push(ProstituteEvent::QuestionSwapped { id, index_a, index_b });
        Ok(())
    }

    /// Replaces the whole image list; fails with `DuplicateImage` when the
    /// new list holds an id twice.
    pub fn change_images(&mut self, media_ids: Vec<MediaId>) -> (r: Result<(), ProstituteError>)
        ensures
            match r {
                Ok(()) => distinct_seq(media_ids@) && final(self).state() == (ProstituteState {
                    images: media_ids@,
                    ..old(self).state()
                }) && final(self).events@ == old(self).events@.push(
                    ProstituteEvent::ImagesChanged { id: old(self).id, media_ids },
                ),
                Err(e) => e == ProstituteError::DuplicateImage && !distinct_seq(media_ids@)
                    && *final(self) == *old(self),
            },
    {
        if !media_ids_distinct(&media_ids) {
            return Err(ProstituteError::DuplicateImage);
        }
        self.images = crate::queue::clone_vec(&media_ids);
        let id = self.id;
        self.events.push(ProstituteEvent::ImagesChanged { id, media_ids });
        Ok(())
    }

    /// Appends one image; fails with `DuplicateImage` when it is already in
    /// the list.
    pub fn add_image(&mut self, media_id: MediaId) -> (r: Result<(), ProstituteError>)
        ensures
            match r {
                Ok(()) => !old(self).images@.contains(media_id) && final(self).state() == (
                ProstituteState {
                    images: old(self).state().images.push(media_id),
                    ..old(self).state()
                }) && final(self).events@ == old(self).events@.push(
                    ProstituteEvent::ImageAdded { id: old(self).id, media_id },
                ),
                Err(e) => e == ProstituteError::DuplicateImage && old(self).images@.contains(
                    media_id,
                ) && *final(self) == *old(self),
            },
    {
        if media_ids_contains(&self.images, media_id) {
            return Err(ProstituteError::DuplicateImage);
        }
        self.images.push(media_id);
        let id = self.id;
        self.events.push(ProstituteEvent::ImageAdded { id, media_id });
        Ok(())
    }

    /// Removes one image; fails with `ImageNotFound` when it is not in the
    /// list.
    pub fn delete_image(&mut self, media_id: MediaId) -> (r: Result<(), ProstituteError>)
        ensures
            match r {
                Ok(()) => old(self).images@.contains(media_id) && final(self).state() == (
                ProstituteState {
                    images: remove_media(old(self).state().images, media_id),
                    ..old(self).state()
                }) && final(self).events@ == old(self).events@.push(
                    ProstituteEvent::ImageDeleted { id: old(self).id, media_id },
                ),
                Err(e) => e == ProstituteError::ImageNotFound && !old(self).images@.contains(
                    media_id,
                ) && *final(self) == *old(self),
            },
    {
        if !media_ids_contains(&self.images, media_id) {
            return Err(ProstituteError::ImageNotFound);
        }
        self.images = remove_media_exec(&self.images, media_id);
        let id = self.id;
        self.events.push(ProstituteEvent::ImageDeleted { id, media_id });
        Ok(())
    }

    /// Exchanges the positions of two images; both must be in the list and
    /// differ.
    pub fn swap_image(&mut self, media_id_a: MediaId, media_id_b: MediaId) -> (r: Result<
        (),
        ProstituteError,
    >)
        ensures
            match r {
                Ok(()) => old(self).images@.contains(media_id_a) && old(self).images@.contains(
                    media_id_b,
                ) && media_id_a != media_id_b && final(self).state() == (ProstituteState {
                    images: Seq::new(
                        old(self).images@.len(),
                        |i: int| exchange_id(old(self).images@[i], media_id_a, media_id_b),
                    ),
                    ..old(self).state()
                }) && final(self).events@ == old(self).events@.push(
                    ProstituteEvent::ImageSwapped { id: old(self).id, media_id_a, media_id_b },
                ),
                Err(e) => *final(self) == *old(self) && (match e {
                    ProstituteError::ImageNotFound => !old(self).images@.contains(media_id_a)
                        || !old(self).images@.contains(media_id_b),
                    ProstituteError::DuplicateImageIndex => old(self).images@.contains(media_id_a)
                        && old(self).images@.contains(media_id_b) && media_id_a == media_id_b,
                    _ => false,
                }),
            },
    {
        if !media_ids_contains(&self.images, media_id_a) || !media_ids_contains(
            &self.images,
            media_id_b,
        ) {
            return Err(ProstituteError::ImageNotFound);
        }
        if media_id_a.0 == media_id_b.0 {
            return Err(ProstituteError::DuplicateImageIndex);
        }
        self.images = exchange_images_exec(&self.images, media_id_a, media_id_b);
        let id = self.id;
        self.events.push(ProstituteEvent::ImageSwapped { id, media_id_a, media_id_b });
        Ok(())
    }

    /// Replaces or removes the video and queues the matching event.
    pub fn change_video(&mut self, video: Option<MediaId>)
        ensures
            final(self).state() == (ProstituteState { video, ..old(self).state() }),
            final(self).events@ == old(self).events@.push(
                ProstituteEvent::VideoChanged { id: old(self).id, media_id: video },
            ),
    {
        self.video = video;
        let id = self.id;
        self.events.push(ProstituteEvent::VideoChanged { id, media_id: video });
    }

    /// Decides whether `event` may be applied to the current state;
    /// commands call this before `apply`.
    pub fn validate(&self, event: &ProstituteEvent) -> (r: Result<(), ProstituteError>)
        ensures
            r == prostitute_validate(self.state(), *event),
    {
        match event {
            ProstituteEvent::Joined { name, catchphrase, images, .. } => {
                if text::is_blank(name.as_str()) {
                    Err(ProstituteError::NameIsBlank)
                } else if text::is_blank(catchphrase.as_str()) {
                    Err(ProstituteError::CatchphraseIsBlank)
                } else if !media_ids_distinct(images) {
                    Err(ProstituteError::DuplicateImage)
                } else {
                    Ok(())
                }
            },
            ProstituteEvent::Rejoined { id } => {
                if id.0 != self.id.0 {
                    Err(ProstituteError::MismatchedId)
                } else if !self.leaved {
                    Err(ProstituteError::AlreadyJoined)
                } else {
                    Ok(())
                }
            },
            ProstituteEvent::Leaved { id } => {
                if id.0 != self.id.0 {
                    Err(ProstituteError::MismatchedId)
                } else if self.leaved {
                    Err(ProstituteError::AlreadyLeft)
                } else {
                    Ok(())
                }
            },
            ProstituteEvent::NameChanged { id, name } => {
                if id.0 != self.id.0 {
                    Err(ProstituteError::MismatchedId)
                } else if text::is_blank(name.as_str()) {
                    Err(ProstituteError::NameIsBlank)
                } else {
                    Ok(())
                }
            },
            ProstituteEvent::CatchphraseChanged { id, catchphrase } => {
                if id.0 != self.id.0 {
                    Err(ProstituteError::MismatchedId)
                } else if text::is_blank(catchphrase.as_str()) {
                    Err(ProstituteError::CatchphraseIsBlank)
                } else {
                    Ok(())
                }
            },
            ProstituteEvent::ProfileChanged { id, .. } => self.check_id(id),
            ProstituteEvent::MessageChanged { id, .. } => self.check_id(id),
            ProstituteEvent::FigureChanged { id, .. } => self.check_id(id),
            ProstituteEvent::BloodTypeChanged { id, .. } => self.check_id(id),
            ProstituteEvent::BirthdayChanged { id, .. } => self.check_id(id),
            ProstituteEvent::QuestionsChanged { id, .. } => self.check_id(id),
            ProstituteEvent::QuestionAdded { id, .. } => self.check_id(id),
            ProstituteEvent::QuestionDeleted { id, index } => {
                if id.0 != self.id.0 {
                    Err(ProstituteError::MismatchedId)
                } else if *index >= self.questions.len() {
                    Err(ProstituteError::QuestionNotFound)
                } else {
                    Ok(())
                }
            },
            ProstituteEvent::QuestionSwapped { id, index_a, index_b } => {
                if id.0 != self.id.0 {
                    Err(ProstituteError::MismatchedId)
                } else if *index_a >= self.questions.len() {
                    Err(ProstituteError::QuestionNotFound)
                } else if *index_b >= self.questions.len() {
                    Err(ProstituteError::QuestionNotFound)
                } else if *index_a == *index_b {
                    Err(ProstituteError::DuplicateQuestionIndex)
                } else {
                    Ok(())
                }
            },
            ProstituteEvent::ImagesChanged { id, media_ids } => {
                if id.0 != self.id.0 {
                    Err(ProstituteError::MismatchedId)
                } else if !media_ids_distinct(media_ids) {
                    Err(ProstituteError::DuplicateImage)
                } else {
                    Ok(())
                }
            },
            ProstituteEvent::ImageAdded { id, media_id } => {
                if id.0 != self.id.0 {
                    Err(ProstituteError::MismatchedId)
                } else if media_ids_contains(&self.images, *media_id) {
                    Err(ProstituteError::DuplicateImage)
                } else {
                    Ok(())
                }
            },
            ProstituteEvent::ImageDeleted { id, media_id } => {
                if id.0 != self.id.0 {
                    Err(ProstituteError::MismatchedId)
                } else if !media_ids_contains(&self.images, *media_id) {
                    Err(ProstituteError::ImageNotFound)
                } else {
                    Ok(())
                }
            },
            ProstituteEvent::ImageSwapped { id, media_id_a, media_id_b } => {
                if id.0 != self.id.0 {
                    Err(ProstituteError::MismatchedId)
                } else if !media_ids_contains(&self.images, *media_id_a) {
                    Err(ProstituteError::ImageNotFound)
                } else if !media_ids_contains(&self.images, *media_id_b) {
                    Err(ProstituteError::ImageNotFound)
                } else if media_id_a.0 == media_id_b.0 {
                    Err(ProstituteError::DuplicateImageIndex)
                } else {
                    Ok(())
                }
            },
            ProstituteEvent::VideoChanged { id, .. } => self.check_id(id),
            ProstituteEvent::Deleted { id } => self.check_id(id),
        }
    }

    /// `MismatchedId` unless `id` is the aggregate's own.
    fn check_id(&self, id: &ProstituteId) -> (r: Result<(), ProstituteError>)
        ensures
            r == if *id != self.id {
                Err::<(), ProstituteError>(ProstituteError::MismatchedId)
            } else {
                Ok::<(), ProstituteError>(())
            },
    {
        if id.0 != self.id.0 {
            Err(ProstituteError::MismatchedId)
        } else {
            Ok(())
        }
    }

    /// Applies `event` to the state and appends it to the queue. Total and
    /// validation-free: the command path validates first, and replay trusts
    /// stored events.
    pub fn apply(&mut self, event: ProstituteEvent)
        ensures
            final(self).state() == prostitute_step(old(self).state(), event),
            final(self).events@ == old(self).events@.push(event),
    {
        match &event {
            ProstituteEvent::Joined {
                id,
                name,
                catchphrase,
                profile,
                message,
                figure,
                blood,
                birthday,
                questions,
                images,
                video,
            } => {
                self.id = *id;
                self.name = name.clone();
                self.catchphrase = catchphrase.clone();
                self.profile = profile.clone();
                self.message = message.clone();
                self.figure = *figure;
                self.blood = *blood;
                self.birthday = *birthday;
                self.questions = clone_questions(questions);
                self.images = crate::queue::clone_vec(images);
                self.video = *video;
                self.leaved = false;
            },
            ProstituteEvent::Rejoined { .. } => {
                self.leaved = false;
            },
            ProstituteEvent::Leaved { .. } => {
                self.leaved = true;
            },
            ProstituteEvent::NameChanged { name, .. } => {
                self.name = name.clone();
            },
            ProstituteEvent::CatchphraseChanged { catchphrase, .. } => {
                self.catchphrase = catchphrase.clone();
            },
            ProstituteEvent::ProfileChanged { profile, .. } => {
                self.profile = profile.clone();
            },
            ProstituteEvent::MessageChanged { message, .. } => {
                self.message = message.clone();
            },
            ProstituteEvent::FigureChanged { figure, .. } => {
                self.figure = *figure;
            },
            ProstituteEvent::BloodTypeChanged { blood, .. } => {
                self.blood = *blood;
            },
            ProstituteEvent::BirthdayChanged { birthday, .. } => {
                self.birthday = *birthday;
            },
            ProstituteEvent::QuestionsChanged { questions, .. } => {
                self.questions = clone_questions(questions);
            },
            ProstituteEvent::QuestionAdded { question, .. } => {
                self.questions.push(question.duplicate());
            },
            ProstituteEvent::QuestionDeleted { index, .. } => {
                if *index < self.questions.len() {
                    self.questions.remove(*index);
                }
            },
            ProstituteEvent::QuestionSwapped { index_a, index_b, .. } => {
                if *index_a < self.questions.len() && *index_b < self.questions.len() {
                    let qa = self.questions[*index_a].duplicate();
                    let qb = self.questions[*index_b].duplicate();
                    self.questions.set(*index_a, qb);
                    self.questions.set(*index_b, qa);
                }
            },
            ProstituteEvent::ImagesChanged { media_ids, .. } => {
                self.images = crate::queue::clone_vec(media_ids);
            },
            ProstituteEvent::ImageAdded { media_id, .. } => {
                self.images.push(*media_id);
            },
            ProstituteEvent::ImageDeleted { media_id, .. } => {
                self.images = remove_media_exec(&self.images, *media_id);
            },
            ProstituteEvent::ImageSwapped { media_id_a, media_id_b, .. } => {
                self.images = exchange_images_exec(&self.images, *media_id_a, *media_id_b);
            },
            ProstituteEvent::VideoChanged { media_id, .. } => {
                self.video = *media_id;
            },
            ProstituteEvent::Deleted { .. } => {},
        }
        self.events.push(event);
    }

    /// Reconstitutes an aggregate from its stored stream; `None` exactly
    /// when the stream is empty.
    pub fn replay(events: Vec<ProstituteEvent>) -> (r: Option<Self>)
        ensures
            match r {
                Some(a) => events@.len() > 0 && a.state() == prostitute_replay(
                    prostitute_default_state(),
                    events@,
                ) && a.events@.len() == 0,
                None => events@.len() == 0,
            },
    {
        if events.len() == 0 {
            return None;
        }
        let ghost all = events@;
        let mut events = events;
        let mut entity = Prostitute::default();
        while events.len() > 0
            invariant
                prostitute_replay(prostitute_default_state(), all) == prostitute_replay(
                    entity.state(),
                    events@,
                ),
            decreases events@.len(),
        {
            let ghost before = events@;
            let event = events.remove(0);
            proof {
                assert(events@ =~= before.drop_first());
            }
            entity.apply(event);
        }
        entity.events.clear();
        Some(entity)
    }
}

/// `v` with every position of `id` removed.
fn remove_media_exec(v: &Vec<MediaId>, id: MediaId) -> (r: Vec<MediaId>)
    ensures
        r@ == remove_media(v@, id),
{
    let mut r: Vec<MediaId> = Vec::new();
    let n = v.len();
    let mut i: usize = 0;
    while i < n
        invariant
            0 <= i <= n,
            n == v@.len(),
            r@ == remove_media(v@.subrange(0, i as int), id),
        decreases n - i,
    {
        let ghost prefix = v@.subrange(0, i as int);
        let ghost prefix2 = v@.subrange(0, i as int + 1);
        proof {
            assert(prefix2.drop_last() =~= prefix);
        }
        if v[i].0 != id.0 {
            proof {
                assert(v@[i as int] != id);
            }
            r.push(v[i]);
        } else {
            proof {
                assert(v@[i as int] == id);
            }
        }
        i = i + 1;
    }
    proof {
        assert(v@.subrange(0, n as int) =~= v@);
    }
    r
}

/// `v` with the two ids exchanged at every position.
fn exchange_images_exec(v: &Vec<MediaId>, a: MediaId, b: MediaId) -> (r: Vec<MediaId>)
    ensures
        r@ == Seq::new(v@.len(), |i: int| exchange_id(v@[i], a, b)),
{
    let mut r: Vec<MediaId> = Vec::new();
    let n = v.len();
    let mut i: usize = 0;
    while i < n
        invariant
            0 <= i <= n,
            n == v@.len(),
            r@.len() == i,
            forall|j: int| 0 <= j < i ==> r@[j] == exchange_id(v@[j], a, b),
        decreases n - i,
    {
        let x = v[i];
        let y = if x.0 == a.0 {
            b
        } else if x.0 == b.0 {
            a
        } else {
            x
        };
        proof {
            assert(y == exchange_id(v@[i as int], a, b));
        }
        r.push(y);
        i = i + 1;
    }
    proof {
        assert(r@ =~= Seq::new(v@.len(), |i: int| exchange_id(v@[i], a, b)));
    }
    r
}

impl Default for Prostitute {
    /// A blank profile, the starting point of replay.
    fn default() -> (r: Self)
        ensures
            r.state() == prostitute_default_state(),
            r.events@.len() == 0,
    {
        let r = Prostitute {
            id: ProstituteId(0),
            name: String::new(),
            catchphrase: String::new(),
            profile: String::new(),
            message: String::new(),
            figure: Figure::default(),
            blood: None,
            birthday: None,
            questions: Vec::new(),
            images: Vec::new(),
            video: None,
            leaved: false,
            events: EventQueue::new(),
        };
        proof {
            assert(r.state().name =~= Seq::<char>::empty());
            assert(r.state().catchphrase =~= Seq::<char>::empty());
            assert(r.state().profile =~= Seq::<char>::empty());
            assert(r.state().message =~= Seq::<char>::empty());
            assert(r.state().questions =~= Seq::<Question>::empty());
            assert(r.state().images =~= Seq::<MediaId>::empty());
        }
        r
    }
}


} // verus!
