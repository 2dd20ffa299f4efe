use dely::media::MediaId;
use dely::prostitute::{Figure, Prostitute, ProstituteError, ProstituteId, Question};

fn join_basic(id: u64, images: Vec<MediaId>) -> Result<Prostitute, ProstituteError> {
    Prostitute::join(
        ProstituteId(id),
        "さくら".to_owned(),
        "よろしくね".to_owned(),
        "profile".to_owned(),
        "message".to_owned(),
        Figure::default(),
        None,
        None,
        Vec::new(),
        images,
        None,
    )
}

fn question(q: &str, a: &str) -> Question {
    Question {
        question: q.to_owned(),
        answer: a.to_owned(),
    }
}

#[test]
fn join_validations() {
    assert!(join_basic(1, vec![MediaId(1), MediaId(2)]).is_ok());
    assert_eq!(
        join_basic(1, vec![MediaId(1), MediaId(1)]).err(),
        Some(ProstituteError::DuplicateImage)
    );
    let blank_name = Prostitute::join(
        ProstituteId(1),
        "   ".to_owned(),
        "c".to_owned(),
        String::new(),
        String::new(),
        Figure::default(),
        None,
        None,
        Vec::new(),
        Vec::new(),
        None,
    );
    assert_eq!(blank_name.err(), Some(ProstituteError::NameIsBlank));
    let blank_catchphrase = Prostitute::join(
        ProstituteId(1),
        "n".to_owned(),
        " \t ".to_owned(),
        String::new(),
        String::new(),
        Figure::default(),
        None,
        None,
        Vec::new(),
        Vec::new(),
        None,
    );
    assert_eq!(blank_catchphrase.err(), Some(ProstituteError::CatchphraseIsBlank));
}

#[test]
fn leave_and_rejoin() {
    let mut p = join_basic(1, Vec::new()).unwrap();
    assert_eq!(p.rejoin(), Err(ProstituteError::AlreadyJoined));
    assert_eq!(p.leave(), Ok(()));
    assert_eq!(p.leave(), Err(ProstituteError::AlreadyLeft));
    assert_eq!(p.rejoin(), Ok(()));
    assert_eq!(p.rejoin(), Err(ProstituteError::AlreadyJoined));
}

#[test]
fn question_operations() {
    let mut p = join_basic(1, Vec::new()).unwrap();
    p.add_question(question("q1", "a1"));
    p.add_question(question("q2", "a2"));
    p.add_question(question("q3", "a3"));
    assert_eq!(p.swap_question(0, 2), Ok(()));
    assert_eq!(p.questions[0], question("q3", "a3"));
    assert_eq!(p.questions[2], question("q1", "a1"));
    assert_eq!(p.swap_question(1, 1), Err(ProstituteError::DuplicateQuestionIndex));
    assert_eq!(p.swap_question(0, 3), Err(ProstituteError::QuestionNotFound));
    assert_eq!(p.delete_question(1), Ok(()));
    assert_eq!(p.questions.len(), 2);
    assert_eq!(p.delete_question(5), Err(ProstituteError::QuestionNotFound));
}

#[test]
fn image_operations() {
    let mut p = join_basic(1, vec![MediaId(1), MediaId(2), MediaId(3)]).unwrap();
    assert_eq!(p.add_image(MediaId(2)), Err(ProstituteError::DuplicateImage));
    assert_eq!(p.add_image(MediaId(4)), Ok(()));
    assert_eq!(p.delete_image(MediaId(9)), Err(ProstituteError::ImageNotFound));
    assert_eq!(p.delete_image(MediaId(4)), Ok(()));
    assert_eq!(p.images, vec![MediaId(1), MediaId(2), MediaId(3)]);

    assert_eq!(
        p.swap_image(MediaId(1), MediaId(1)),
        Err(ProstituteError::DuplicateImageIndex)
    );
    assert_eq!(
        p.swap_image(MediaId(1), MediaId(9)),
        Err(ProstituteError::ImageNotFound)
    );
    assert_eq!(p.swap_image(MediaId(1), MediaId(3)), Ok(()));
    assert_eq!(p.images, vec![MediaId(3), MediaId(2), MediaId(1)]);
}

#[test]
fn replay_reproduces_live_state() {
    let mut live = join_basic(7, vec![MediaId(1), MediaId(2)]).unwrap();
    live.change_name("あおい".to_owned()).unwrap();
    live.add_question(question("favourite?", "cake"));
    live.add_image(MediaId(3)).unwrap();
    live.swap_image(MediaId(1), MediaId(3)).unwrap();
    live.leave().unwrap();

    let history = live.events.pop_all();
    let replayed = Prostitute::replay(history).unwrap();
    assert_eq!(replayed.id(), ProstituteId(7));
    assert_eq!(replayed.name, "あおい");
    assert_eq!(replayed.questions, vec![question("favourite?", "cake")]);
    assert_eq!(replayed.images, vec![MediaId(3), MediaId(2), MediaId(1)]);
    assert!(replayed.leaved);
    assert_eq!(replayed.events.len(), 0);
}
