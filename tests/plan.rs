use sendtg::media::MediaKind;
use sendtg::media::MediaKind::{Audio, Document, Photo, Video};
use sendtg::planner::{plan, PlanStep};

fn positions(steps: &[PlanStep]) -> Vec<usize> {
    let mut out = Vec::new();
    for s in steps {
        match *s {
            PlanStep::Single { index } => out.push(index),
            PlanStep::Group { start, end } => out.extend(start..end),
        }
    }
    out
}

#[test]
fn photos_and_video_form_one_group() {
    let steps = plan(&vec![Photo, Photo, Video], false);
    assert_eq!(steps, vec![PlanStep::Group { start: 0, end: 3 }]);
}

#[test]
fn documents_then_photo() {
    let steps = plan(&vec![Document, Document, Photo], false);
    assert_eq!(
        steps,
        vec![PlanStep::Group { start: 0, end: 2 }, PlanStep::Single { index: 2 }]
    );
}

#[test]
fn eleven_photos_split_at_ten() {
    let kinds = vec![Photo; 11];
    let steps = plan(&kinds, false);
    assert_eq!(
        steps,
        vec![PlanStep::Group { start: 0, end: 10 }, PlanStep::Single { index: 10 }]
    );
}

#[test]
fn no_group_sends_videos_one_by_one() {
    let steps = plan(&vec![Video, Video], true);
    assert_eq!(
        steps,
        vec![PlanStep::Single { index: 0 }, PlanStep::Single { index: 1 }]
    );
}

#[test]
fn no_group_sends_documents_one_by_one() {
    let steps = plan(&vec![Document, Document, Document], true);
    assert_eq!(
        steps,
        vec![
            PlanStep::Single { index: 0 },
            PlanStep::Single { index: 1 },
            PlanStep::Single { index: 2 }
        ]
    );
}

#[test]
fn empty_batch_gives_empty_plan() {
    let steps = plan(&Vec::new(), false);
    assert!(steps.is_empty());
}

#[test]
fn lone_items_are_never_grouped() {
    for no_group in [false, true] {
        let steps = plan(&vec![Photo, Document, Audio], no_group);
        assert_eq!(
            steps,
            vec![
                PlanStep::Single { index: 0 },
                PlanStep::Single { index: 1 },
                PlanStep::Single { index: 2 }
            ]
        );
    }
}

#[test]
fn mixed_media_share_a_group_but_not_with_documents() {
    let kinds = vec![Audio, Photo, Document, Document, Video, Audio, Document];
    let steps = plan(&kinds, false);
    assert_eq!(
        steps,
        vec![
            PlanStep::Group { start: 0, end: 2 },
            PlanStep::Group { start: 2, end: 4 },
            PlanStep::Group { start: 4, end: 6 },
            PlanStep::Single { index: 6 }
        ]
    );
    for s in &steps {
        if let PlanStep::Group { start, end } = *s {
            let docs = kinds[start..end].iter().filter(|k| **k == Document).count();
            assert!(docs == 0 || docs == end - start);
            assert!(end - start >= 2 && end - start <= 10);
        }
    }
    assert_eq!(positions(&steps), (0..kinds.len()).collect::<Vec<_>>());
}

#[test]
fn twenty_one_documents_make_two_groups_and_a_single() {
    let kinds: Vec<MediaKind> = vec![Document; 21];
    let steps = plan(&kinds, false);
    assert_eq!(
        steps,
        vec![
            PlanStep::Group { start: 0, end: 10 },
            PlanStep::Group { start: 10, end: 20 },
            PlanStep::Single { index: 20 }
        ]
    );
    assert_eq!(positions(&steps), (0..21).collect::<Vec<_>>());
}
