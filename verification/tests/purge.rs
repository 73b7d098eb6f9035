use modbot::batch::BatchAction;
use modbot::commands::moderation::purge::{
    all, bot, contains, embeds, fetch_limit, files, human, links, mentions, reactions, user,
};
use modbot::error::ErrorKind;
use modbot::filter::{
    link_verdict, plan_purge, select, Message, MessageFilter, PurgeAction, PurgePlan, PurgeResult,
};

fn message(id: u64, author_id: u64, author_is_bot: bool, content: &str) -> Message {
    Message {
        id,
        author_id,
        author_is_bot,
        content: content.to_string(),
        embed_count: 0,
        attachment_count: 0,
        user_mention_count: 0,
        role_mention_count: 0,
    }
}

fn snapshot() -> Vec<Message> {
    let mut with_embed = message(13, 2, false, "look at this");
    with_embed.embed_count = 1;
    let mut with_file = message(14, 3, false, "a file");
    with_file.attachment_count = 2;
    let mut with_user_mention = message(15, 2, false, "hey you");
    with_user_mention.user_mention_count = 1;
    let mut with_role_mention = message(16, 9, true, "hey mods");
    with_role_mention.role_mention_count = 1;
    vec![
        message(10, 1, true, "beep"),
        message(11, 2, false, "see https://example.com/page now"),
        message(12, 1, true, "boop http://a"),
        with_embed,
        with_file,
        with_user_mention,
        with_role_mention,
    ]
}

#[test]
fn bot_filter_selects_first_and_third_human_the_second() {
    let messages =
        vec![message(1, 7, true, ""), message(2, 8, false, ""), message(3, 7, true, "")];
    assert_eq!(bot(&messages, None).ids, vec![1, 3]);
    assert_eq!(human(&messages, None).ids, vec![2]);
}

#[test]
fn nothing_matched_means_nothing_deleted() {
    let messages = vec![message(1, 7, false, "a"), message(2, 8, false, "b")];
    let plan = bot(&messages, None);
    assert!(plan.ids.is_empty());
    assert_eq!(plan.action(), PurgeAction::Skip);
    let done = PurgeResult { matched_count: 0, deleted_count: 0 };
    assert_eq!(plan.settle(None), Ok(done));
    assert_eq!(plan.settle(Some(Ok(()))), Ok(done));
    assert_eq!(plan.settle(Some(Err(ErrorKind::Forbidden))), Ok(done));
    assert_eq!(all(&Vec::new(), None).action(), PurgeAction::Skip);
}

#[test]
fn a_plan_with_matches_asks_for_one_bulk_delete() {
    let plan = all(&snapshot(), None);
    assert_eq!(plan.ids, vec![10, 11, 12, 13, 14, 15, 16]);
    assert_eq!(plan.action(), PurgeAction::BulkDelete(vec![10, 11, 12, 13, 14, 15, 16]));
    assert_eq!(
        plan.settle(Some(Ok(()))),
        Ok(PurgeResult { matched_count: 7, deleted_count: 7 })
    );
    assert_eq!(plan.settle(None), Ok(PurgeResult { matched_count: 7, deleted_count: 0 }));
}

#[test]
fn a_failed_bulk_delete_fails_the_purge() {
    let plan = PurgePlan { ids: vec![4, 5] };
    assert_eq!(plan.settle(Some(Err(ErrorKind::Forbidden))), Err(ErrorKind::Forbidden));
    assert_eq!(plan.settle(Some(Err(ErrorKind::RateLimited))), Err(ErrorKind::RateLimited));
    assert_eq!(plan.settle(Some(Err(ErrorKind::Transient))), Err(ErrorKind::Transient));
    assert_eq!(plan.settle(Some(Err(ErrorKind::NotFound))), Err(ErrorKind::NotFound));
}

#[test]
fn each_filter_selects_its_messages_in_fetch_order() {
    let messages = snapshot();
    assert_eq!(bot(&messages, None).ids, vec![10, 12, 16]);
    assert_eq!(human(&messages, None).ids, vec![11, 13, 14, 15]);
    assert_eq!(embeds(&messages, None).ids, vec![13]);
    assert_eq!(files(&messages, None).ids, vec![14]);
    assert_eq!(mentions(&messages, None).ids, vec![15, 16]);
    assert_eq!(user(&messages, None, 2).ids, vec![11, 13, 15]);
    assert_eq!(user(&messages, None, 404).ids, Vec::<u64>::new());
    assert_eq!(contains(&messages, None, "hey".to_string()).ids, vec![15, 16]);
    assert_eq!(contains(&messages, None, "oo".to_string()).ids, vec![12, 13]);
    assert_eq!(contains(&messages, None, String::new()).ids.len(), 7);
    assert_eq!(contains(&messages, None, "Hey".to_string()).ids, Vec::<u64>::new());
}

#[test]
fn link_filter_asks_the_regular_expression() {
    let messages = snapshot();
    assert_eq!(links(&messages, None).map(|plan| plan.ids), Ok(vec![11, 12]));
    let link = MessageFilter::Links;
    assert_eq!(link.matches(&message(1, 1, false, "https://x")), Ok(true));
    assert_eq!(link.matches(&message(1, 1, false, "http://x")), Ok(true));
    assert_eq!(link.matches(&message(1, 1, false, "https://")), Ok(false));
    assert_eq!(link.matches(&message(1, 1, false, "https:// x")), Ok(false));
    assert_eq!(link.matches(&message(1, 1, false, "ftp://x")), Ok(false));
    assert_eq!(link.matches(&message(1, 1, false, "https?://\\S+")), Ok(false));
    assert_eq!(link.matches(&message(1, 1, false, "")), Ok(false));
}

#[test]
fn an_undecided_link_filter_is_an_invalid_argument() {
    assert_eq!(link_verdict(None), Err(ErrorKind::InvalidArgument));
    assert_eq!(link_verdict(Some(true)), Ok(true));
    assert_eq!(link_verdict(Some(false)), Ok(false));
}

#[test]
fn filters_decide_single_messages() {
    let mut m = message(5, 6, true, "needle in a haystack");
    assert_eq!(MessageFilter::All.matches(&m), Ok(true));
    assert_eq!(MessageFilter::Bot.matches(&m), Ok(true));
    assert_eq!(MessageFilter::Human.matches(&m), Ok(false));
    assert_eq!(MessageFilter::Contains("in a".to_string()).matches(&m), Ok(true));
    assert_eq!(MessageFilter::Contains("haystack!".to_string()).matches(&m), Ok(false));
    assert_eq!(MessageFilter::User(6).matches(&m), Ok(true));
    assert_eq!(MessageFilter::User(5).matches(&m), Ok(false));
    assert_eq!(MessageFilter::Embeds.matches(&m), Ok(false));
    assert_eq!(MessageFilter::Files.matches(&m), Ok(false));
    assert_eq!(MessageFilter::Mentions.matches(&m), Ok(false));
    m.role_mention_count = 3;
    assert_eq!(MessageFilter::Mentions.matches(&m), Ok(true));
}

#[test]
fn only_the_first_max_batch_messages_are_looked_at() {
    let messages = snapshot();
    assert_eq!(select(&messages, &MessageFilter::Bot, 2), Ok(vec![10]));
    assert_eq!(select(&messages, &MessageFilter::Bot, 3), Ok(vec![10, 12]));
    assert_eq!(select(&messages, &MessageFilter::Bot, 0), Ok(vec![]));
    assert_eq!(select(&messages, &MessageFilter::Bot, u16::MAX), Ok(vec![10, 12, 16]));
    assert_eq!(
        plan_purge(&messages, &MessageFilter::All, 4),
        Ok(PurgePlan { ids: vec![10, 11, 12, 13] })
    );
    assert_eq!(all(&messages, Some(2)).ids, vec![10, 11]);
    assert_eq!(all(&messages, Some(0)).ids, Vec::<u64>::new());
}

#[test]
fn at_most_a_hundred_messages_are_fetched() {
    assert_eq!(fetch_limit(None), 100);
    assert_eq!(fetch_limit(Some(0)), 0);
    assert_eq!(fetch_limit(Some(37)), 37);
    assert_eq!(fetch_limit(Some(100)), 100);
    assert_eq!(fetch_limit(Some(101)), 100);
    assert_eq!(fetch_limit(Some(255)), 100);
    let many: Vec<Message> = (0..150).map(|i| message(i, 1, false, "")).collect();
    assert_eq!(all(&many, None).ids.len(), 100);
    assert_eq!(all(&many, Some(200)).ids.len(), 100);
    assert_eq!(all(&many, None).ids[99], 99);
}

#[test]
fn reactions_are_removed_message_by_message_despite_failures() {
    let messages =
        vec![message(1, 7, true, ""), message(2, 8, false, ""), message(3, 7, true, "")];
    let mut run = reactions(&messages, None);
    assert_eq!(run.action(), BatchAction::Perform(1));
    run = run.record(Err(ErrorKind::Forbidden));
    assert_eq!(run.action(), BatchAction::Perform(2));
    run = run.record(Ok(()));
    assert_eq!(run.action(), BatchAction::Perform(3));
    run = run.record(Err(ErrorKind::NotFound));
    assert!(run.is_finished());
    assert_eq!(run.tally().succeeded, 1);
    assert_eq!(run.tally().failed, 2);
    assert_eq!(run.failed_items(), vec![1, 3]);
    assert!(reactions(&Vec::new(), None).is_finished());
}
