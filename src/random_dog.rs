use vstd::prelude::*;
use vstd::string::StringExecFns;

pub use crate::dog_image::DogImage as Img;
pub use crate::error::Error;

verus! {

/// What the window shows: exactly one of these at a time.
#[derive(Debug, Clone, PartialEq, Eq)]
pub enum RandomDog {
    /// A picture is being fetched.
    Loading,
    /// A picture is shown, with the choice to search again or to save it.
    Loaded { img: Img },
    /// The last fetch or save failed.
    Errored { error: Error },
    /// The picture is being saved.
    Saving { img: Img },
    /// The picture was saved.
    Saved,
}

/// An event handed to the state machine: a user's request, or the completion of the
/// operation that the machine started.
#[derive(Debug, PartialEq, Eq)]
pub enum Message {
    /// The fetch completed, with a picture or an error.
    ImgFound(Result<Img, Error>),
    /// The user asks for another picture.
    Search,
    /// The user asks to save the picture shown.
    Saving,
    /// The save completed, successfully or not.
    Saved(Result<(), Error>),
    /// The picture shown could not be decoded for display.
    DecodeFailed,
}

/// The operation that the machine asks its host to start.
#[derive(Debug, Clone, Copy, PartialEq, Eq)]
pub enum Command {
    /// Nothing to start.
    Nothing,
    /// Fetch a new random picture, then hand back `Message::ImgFound`.
    Fetch,
    /// Save the picture held by the `Saving` state, then hand back `Message::Saved`.
    Save,
}

/// The next state and the operation to start, when `m` arrives in state `s`.
/// A request that arrives while an operation runs is ignored, and so is a completion
/// that arrives in any state other than the one waiting for it.
pub open spec fn step(s: RandomDog, m: Message) -> (RandomDog, Command) {
    match (s, m) {
        (RandomDog::Loading, Message::ImgFound(Ok(img))) => (RandomDog::Loaded { img }, Command::Nothing),
        (RandomDog::Loading, Message::ImgFound(Err(error))) => (
            RandomDog::Errored { error },
            Command::Nothing,
        ),
        (RandomDog::Loaded { .. }, Message::Search) => (RandomDog::Loading, Command::Fetch),
        (RandomDog::Loaded { .. }, Message::DecodeFailed) => (
            RandomDog::Errored { error: Error::Decode },
            Command::Nothing,
        ),
        (RandomDog::Errored { .. }, Message::Search) => (RandomDog::Loading, Command::Fetch),
        (RandomDog::Saved, Message::Search) => (RandomDog::Loading, Command::Fetch),
        (RandomDog::Loaded { img }, Message::Saving) => (RandomDog::Saving { img }, Command::Save),
        (RandomDog::Saving { .. }, Message::Saved(Ok(()))) => (RandomDog::Saved, Command::Nothing),
        (RandomDog::Saving { .. }, Message::Saved(Err(error))) => (
            RandomDog::Errored { error },
            Command::Nothing,
        ),
        (s, _) => (s, Command::Nothing),
    }
}

/// The text shown beside the window title for state `s`.
pub open spec fn subtitle_of(s: RandomDog) -> Seq<char> {
    match s {
        RandomDog::Loading => "Loading"@,
        RandomDog::Loaded { img } => img.breed@,
        RandomDog::Errored { .. } => "Somthing went wrong!"@,
        RandomDog::Saving { .. } => "Saving"@,
        RandomDog::Saved => "Dog saved on your computer"@,
    }
}

impl RandomDog {
    /// The machine at start: loading, with a fetch to start.
    pub fn new() -> (r: (RandomDog, Command))
        ensures
            r == (RandomDog::Loading, Command::Fetch),
    {
        (RandomDog::Loading, Command::Fetch)
    }

    /// The window title: the subtitle of the state followed by ` - Random Dog`.
    pub fn title(&self) -> (r: String)
        ensures
            r@ == subtitle_of(*self) + " - Random Dog"@,
    {
        let mut r = match self {
            RandomDog::Loading => String::from_str("Loading"),
            RandomDog::Loaded { img } => img.breed.clone(),
            RandomDog::Errored { .. } => String::from_str("Somthing went wrong!"),
            RandomDog::Saving { .. } => String::from_str("Saving"),
            RandomDog::Saved => String::from_str("Dog saved on your computer"),
        };
        r.append(" - Random Dog");
        r
    }

    /// Moves to the next state on `message` and returns the operation to start.
    pub fn update(&mut self, message: Message) -> (c: Command)
        ensures
            (*final(self), c) == step(*old(self), message),
    {
        let mut s = RandomDog::Loading;
        std::mem::swap(self, &mut s);
        let (next, c) = match (s, message) {
            (RandomDog::Loading, Message::ImgFound(Ok(img))) => (RandomDog::Loaded { img }, Command::Nothing),
            (RandomDog::Loading, Message::ImgFound(Err(error))) => (
                RandomDog::Errored { error },
                Command::Nothing,
            ),
            (RandomDog::Loaded { .. }, Message::Search) => (RandomDog::Loading, Command::Fetch),
            (RandomDog::Loaded { .. }, Message::DecodeFailed) => (
                RandomDog::Errored { error: Error::Decode },
                Command::Nothing,
            ),
            (RandomDog::Errored { .. }, Message::Search) => (RandomDog::Loading, Command::Fetch),
            (RandomDog::Saved, Message::Search) => (RandomDog::Loading, Command::Fetch),
            (RandomDog::Loaded { img }, Message::Saving) => (RandomDog::Saving { img }, Command::Save),
            (RandomDog::Saving { .. }, Message::Saved(Ok(()))) => (RandomDog::Saved, Command::Nothing),
            (RandomDog::Saving { .. }, Message::Saved(Err(error))) => (
                RandomDog::Errored { error },
                Command::Nothing,
            ),
            (s, _) => (s, Command::Nothing),
        };
        *self = next;
        c
    }
}

/// While a picture loads, a request for another picture or for a save changes nothing
/// and starts nothing.
pub proof fn lemma_loading_ignores_requests(m: Message)
    requires
        m matches Message::Search || m matches Message::Saving,
    ensures
        step(RandomDog::Loading, m) == (RandomDog::Loading, Command::Nothing),
{
}

/// Every operation is started only from the state that waits for it: a fetch only on
/// entering `Loading`, a save only on entering `Saving`.
pub proof fn lemma_one_operation_at_a_time(s: RandomDog, m: Message)
    ensures
        step(s, m).1 == Command::Fetch ==> step(s, m).0 == RandomDog::Loading,
        step(s, m).1 == Command::Save ==> step(s, m).0 matches RandomDog::Saving { .. },
        s matches RandomDog::Loading ==> step(s, m).1 == Command::Nothing,
        s matches RandomDog::Saving { .. } ==> step(s, m).1 == Command::Nothing,
{
}

} // verus!
