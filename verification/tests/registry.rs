use ncmpwn::app::{completion, ncm_completion, qmc_completion, Action, App, Msg};
use ncmpwn::dump_api::{MediaFormat, NcmInfo};
use ncmpwn::error::Error;
use ncmpwn::pipeline::PipelineVariant;
use ncmpwn::task::{DecryptTask, DecryptedFile};

fn file(name: &str) -> Box<DecryptedFile> {
    Box::new(DecryptedFile::new("in.qmc3", name, None, &[1, 2], None))
}

fn describe(app: &App) -> Vec<(u128, String)> {
    (0..app.len())
        .map(|i| {
            let task = app.task(i);
            let text = match &task.state {
                DecryptTask::Decrypting(name) => format!("decrypting {}", name),
                DecryptTask::Finished(file) => format!("finished {} {:?}", file.name, file.data),
                DecryptTask::Error(name, message) => format!("error {} {}", name, message),
            };
            (task.uuid, text)
        })
        .collect()
}

#[test]
fn new_registry_is_empty() {
    let app = App::create();
    assert_eq!(app.len(), 0);
    assert_eq!(app.find(1), None);
}

#[test]
fn add_file_appends_in_submission_order() {
    let mut app = App::create();
    assert_eq!(
        app.add_file(10, "a.ncm", 0),
        Some(Action::Read { uuid: 10, file: 0, variant: PipelineVariant::Ncm })
    );
    assert_eq!(app.add_file(11, "b.txt", 1), None);
    assert_eq!(
        app.add_file(12, "c.qmc3", 2),
        Some(Action::Read {
            uuid: 12,
            file: 2,
            variant: PipelineVariant::Qmc(MediaFormat::Id3v2)
        })
    );
    assert_eq!(
        describe(&app),
        vec![
            (10, "decrypting a.ncm".to_string()),
            (11, "error b.txt Invalid file type".to_string()),
            (12, "decrypting c.qmc3".to_string()),
        ]
    );
    assert_eq!(app.find(10), Some(0));
    assert_eq!(app.find(11), Some(1));
    assert_eq!(app.find(12), Some(2));
    assert_eq!(app.find(13), None);
}

#[test]
fn add_file_refuses_an_id_in_use() {
    let mut app = App::create();
    app.add_file(10, "a.ncm", 0);
    assert_eq!(app.add_file(10, "b.ncm", 1), Some(Action::Refused { file: 1 }));
    assert_eq!(app.add_file(10, "b.txt", 2), Some(Action::Refused { file: 2 }));
    assert_eq!(describe(&app), vec![(10, "decrypting a.ncm".to_string())]);
}

#[test]
fn completion_for_an_unknown_id_is_dropped() {
    let mut app = App::create();
    app.add_file(10, "a.ncm", 0);
    assert_eq!(app.update(Msg::Finish(99, file("x.mp3"))), vec![Action::Unknown(99)]);
    assert_eq!(app.update(Msg::Error(98, "late".to_string())), vec![Action::Unknown(98)]);
    assert_eq!(describe(&app), vec![(10, "decrypting a.ncm".to_string())]);
}

#[test]
fn a_task_is_settled_at_most_once() {
    let mut app = App::create();
    app.add_file(10, "a.qmc3", 0);
    assert_eq!(app.update(Msg::Finish(10, file("a.mp3"))), vec![Action::Settled(10)]);
    assert_eq!(app.update(Msg::Error(10, "late".to_string())), vec![Action::Stale(10)]);
    assert_eq!(app.update(Msg::Finish(10, file("other.mp3"))), vec![Action::Stale(10)]);
    assert_eq!(describe(&app), vec![(10, "finished a.mp3 [1, 2]".to_string())]);

    app.add_file(11, "b.qmc3", 1);
    assert_eq!(app.update(Msg::Error(11, "boom".to_string())), vec![Action::Settled(11)]);
    assert_eq!(app.update(Msg::Finish(11, file("b.mp3"))), vec![Action::Stale(11)]);
    assert_eq!(app.resolve(11, Err("again".to_string())), Action::Stale(11));
    assert_eq!(describe(&app)[1], (11, "error b.qmc3 boom".to_string()));
}

#[test]
fn a_rejected_task_is_never_changed() {
    let mut app = App::create();
    app.add_file(10, "clip.xyz", 0);
    assert_eq!(app.update(Msg::Finish(10, file("clip.mp3"))), vec![Action::Stale(10)]);
    assert_eq!(app.update(Msg::Error(10, "late".to_string())), vec![Action::Stale(10)]);
    assert_eq!(describe(&app), vec![(10, "error clip.xyz Invalid file type".to_string())]);
}

#[test]
fn failure_keeps_the_name_of_the_task() {
    let mut app = App::create();
    app.add_file(10, "a.ncm", 0);
    app.add_file(11, "b.ncm", 1);
    assert_eq!(app.update(Msg::Error(11, "boom".to_string())), vec![Action::Settled(11)]);
    assert_eq!(
        describe(&app),
        vec![(10, "decrypting a.ncm".to_string()), (11, "error b.ncm boom".to_string())]
    );
}

#[test]
fn completion_order_does_not_show() {
    let events = |order: &[usize]| -> Vec<(u128, String)> {
        let mut app = App::create();
        for (i, name) in ["a.qmc3", "b.qmc3", "c.xyz", "d.qmcflac"].iter().enumerate() {
            app.add_file(100 + i as u128, name, i);
        }
        for &k in order {
            let msg = match k {
                0 => Msg::Finish(100, file("a.mp3")),
                1 => Msg::Error(101, "boom".to_string()),
                _ => Msg::Finish(103, file("d.flac")),
            };
            app.update(msg);
        }
        describe(&app)
    };
    let expected = vec![
        (100, "finished a.mp3 [1, 2]".to_string()),
        (101, "error b.qmc3 boom".to_string()),
        (102, "error c.xyz Invalid file type".to_string()),
        (103, "finished d.flac [1, 2]".to_string()),
    ];
    for order in [[0, 1, 2], [0, 2, 1], [1, 0, 2], [1, 2, 0], [2, 0, 1], [2, 1, 0]] {
        assert_eq!(events(&order), expected, "{:?}", order);
    }
}

#[test]
fn every_task_ends_once_all_reads_completed() {
    let names: Vec<String> =
        ["a.ncm", "b.qmc3", "c.txt", "d.qmcflac", "e"].iter().map(|s| s.to_string()).collect();
    let mut app = App::create();
    let actions = app.update(Msg::Add(names.clone()));
    assert_eq!(app.len(), names.len());
    let mut reads: Vec<(u128, usize)> = actions
        .iter()
        .map(|action| match action {
            Action::Read { uuid, file, .. } => (*uuid, *file),
            other => panic!("unexpected action {:?}", other),
        })
        .collect();
    assert_eq!(reads.iter().map(|r| r.1).collect::<Vec<_>>(), vec![0, 1, 3]);
    reads.reverse();
    for (uuid, place) in reads {
        let msg = if place == 1 {
            Msg::Error(uuid, "boom".to_string())
        } else {
            Msg::Finish(uuid, file("out.mp3"))
        };
        assert_eq!(app.update(msg), vec![Action::Settled(uuid)]);
    }
    assert_eq!(app.len(), names.len());
    let mut ids = Vec::new();
    for i in 0..app.len() {
        let task = app.task(i);
        assert!(task.state.is_terminal());
        assert_eq!(app.find(task.uuid), Some(i));
        ids.push(task.uuid);
    }
    ids.sort();
    ids.dedup();
    assert_eq!(ids.len(), names.len());
}

#[test]
fn drawn_ids_are_random_uuids() {
    let mut app = App::create();
    let names: Vec<String> = (0..64).map(|i| format!("{}.ncm", i)).collect();
    let actions = app.update(Msg::Add(names));
    assert_eq!(actions.len(), 64);
    let mut ids = Vec::new();
    for (place, action) in actions.iter().enumerate() {
        match action {
            Action::Read { uuid, file, variant } => {
                assert_eq!(*file, place);
                assert_eq!(*variant, PipelineVariant::Ncm);
                assert_eq!((uuid >> 76) & 0xf, 4);
                assert_eq!((uuid >> 62) & 0x3, 2);
                assert_eq!(app.task(place).uuid, *uuid);
                ids.push(*uuid);
            }
            other => panic!("unexpected action {:?}", other),
        }
    }
    ids.sort();
    ids.dedup();
    assert_eq!(ids.len(), 64);
}

#[test]
fn resubmitting_a_name_gives_the_same_result() {
    let mut app = App::create();
    let first = app.update(Msg::Add(vec!["track.qmcflac".to_string()]));
    let second = app.update(Msg::Add(vec!["track.qmcflac".to_string()]));
    let read = |actions: &Vec<Action>| match actions[0] {
        Action::Read { uuid, variant: PipelineVariant::Qmc(format), .. } => (uuid, format),
        other => panic!("unexpected action {:?}", other),
    };
    let (a, format_a) = read(&first);
    let (b, format_b) = read(&second);
    assert_ne!(a, b);
    assert_eq!(format_a, format_b);
    for (uuid, format) in [(b, format_b), (a, format_a)] {
        let msg = qmc_completion(uuid, "track.qmcflac", format, Ok((MediaFormat::Flac, vec![5; 4])));
        app.update(msg);
    }
    match (&app.task(0).state, &app.task(1).state) {
        (DecryptTask::Finished(x), DecryptTask::Finished(y)) => {
            assert_eq!(x.name, "track.flac");
            assert_eq!(x.name, y.name);
            assert_eq!(x.data, y.data);
            assert_eq!(x.original_name, y.original_name);
        }
        other => panic!("unexpected states {:?}", other),
    }
}

#[test]
fn completion_wraps_the_outcome() {
    match completion(5, Ok(*file("a.mp3"))) {
        Msg::Finish(uuid, file) => {
            assert_eq!(uuid, 5);
            assert_eq!(file.name, "a.mp3");
        }
        other => panic!("unexpected message {:?}", other),
    }
    match completion(6, Err(Error::KeyDecryptError)) {
        Msg::Error(uuid, message) => {
            assert_eq!(uuid, 6);
            assert_eq!(message, "Cannot decrypt the key");
        }
        other => panic!("unexpected message {:?}", other),
    }
}

#[test]
fn failed_read_fails_the_task_with_its_message() {
    let mut app = App::create();
    app.add_file(1, "a.ncm", 0);
    app.add_file(2, "b.qmc3", 1);
    let msg = ncm_completion(1, "a.ncm", Err(Error::IO("gone".to_string())));
    assert_eq!(app.update(msg), vec![Action::Settled(1)]);
    let msg = qmc_completion(2, "b.qmc3", MediaFormat::Id3v2, Err(Error::KeyLoadError));
    assert_eq!(app.update(msg), vec![Action::Settled(2)]);
    assert_eq!(
        describe(&app),
        vec![
            (1, "error a.ncm IO error: gone".to_string()),
            (2, "error b.qmc3 Cannot read key".to_string())
        ]
    );
}

#[test]
fn ncm_pipeline_failures() {
    let info = |format: &str| NcmInfo {
        name: "Track".to_string(),
        artist: Vec::new(),
        format: format.to_string(),
    };
    let png = vec![0x89, b'P', b'N', b'G', b'\r', b'\n', 0x1a, b'\n'];
    let message = |msg: Msg| match msg {
        Msg::Error(_, message) => message,
        other => panic!("unexpected message {:?}", other),
    };
    let unsupported = ncm_completion(1, "a.ncm", Ok((info("ogg"), png.clone(), vec![1])));
    assert_eq!(message(unsupported), "Invalid file type");
    let no_picture = ncm_completion(1, "a.ncm", Ok((info("flac"), vec![1, 2, 3], vec![1])));
    assert_eq!(message(no_picture), "Cannot guess image format");
    let neither = ncm_completion(1, "a.ncm", Ok((info("ogg"), Vec::new(), vec![1])));
    assert_eq!(message(neither), "Invalid file type");
    match ncm_completion(1, "a.ncm", Ok((info("flac"), png, vec![1]))) {
        Msg::Finish(_, file) => {
            assert_eq!(file.name, "Track.flac");
            assert_eq!(file.image.as_ref().map(|p| p.1.as_str()), Some("iVBORw0KGgo="));
        }
        other => panic!("unexpected message {:?}", other),
    }
}
