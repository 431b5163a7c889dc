use ingest::command::FrameCommand;
use ingest::command::FtlCommand;
use ingest::connection::Connection;
use ingest::connection::CHANNEL_CAPACITY;
use ingest::dispatcher::DispatchPhase;
use ingest::frame::FrameAction;
use ingest::frame::FrameEvent;
use ingest::frame::FramePhase;
use ingest::frame::FrameTask;

fn send(pieces: &[&str]) -> FrameCommand {
    FrameCommand::Send { data: pieces.iter().map(|p| p.to_string()).collect() }
}

fn write(piece: &str) -> FrameAction {
    FrameAction::Write(piece.to_string())
}

fn awaiting() -> FrameTask {
    let mut task = FrameTask::new();
    assert_eq!(task.step(FrameEvent::Started), FrameAction::Decode);
    assert_eq!(task.step(FrameEvent::Decoded(FtlCommand::Ping)), FrameAction::Forward(FtlCommand::Ping));
    assert_eq!(task.step(FrameEvent::Completed), FrameAction::Await);
    task
}

#[test]
fn init_sets_up_both_tasks() {
    let connection = Connection::init();
    assert_eq!(connection.frame.phase(), FramePhase::Created);
    assert_eq!(connection.dispatcher.phase(), DispatchPhase::Created);
    assert_eq!(connection.dispatcher.state().hmac_payload, None);
    assert_eq!(CHANNEL_CAPACITY, 2);
}

#[test]
fn frame_task_starts_by_decoding() {
    let mut task = FrameTask::new();
    assert_eq!(task.phase(), FramePhase::Created);
    assert_eq!(task.step(FrameEvent::Started), FrameAction::Decode);
    assert_eq!(task.phase(), FramePhase::Decoding);
}

#[test]
fn decoded_command_is_forwarded_unchanged() {
    let mut task = FrameTask::new();
    task.step(FrameEvent::Started);
    let command = FtlCommand::Attribute {
        key: Some("Video".to_string()),
        value: Some("maybe".to_string()),
    };
    assert_eq!(task.step(FrameEvent::Decoded(command.clone())), FrameAction::Forward(command));
    assert_eq!(task.phase(), FramePhase::Forwarding);
}

#[test]
fn forwarded_command_is_followed_by_a_wait() {
    let task = awaiting();
    assert_eq!(task.phase(), FramePhase::Awaiting);
}

#[test]
fn pieces_are_written_in_order_before_the_next_read() {
    let mut task = awaiting();
    assert_eq!(task.step(FrameEvent::Instruction(send(&["200 ", "abcd", "\n"]))), write("200 "));
    assert_eq!(task.phase(), FramePhase::Writing);
    assert_eq!(task.step(FrameEvent::Completed), write("abcd"));
    assert_eq!(task.step(FrameEvent::Completed), write("\n"));
    assert_eq!(task.step(FrameEvent::Completed), FrameAction::Decode);
    assert_eq!(task.phase(), FramePhase::Decoding);
}

#[test]
fn empty_piece_is_still_written() {
    let mut task = awaiting();
    assert_eq!(task.step(FrameEvent::Instruction(send(&[""]))), write(""));
    assert_eq!(task.step(FrameEvent::Completed), FrameAction::Decode);
}

#[test]
fn instruction_without_pieces_goes_back_to_decoding() {
    let mut task = awaiting();
    assert_eq!(task.step(FrameEvent::Instruction(send(&[]))), FrameAction::Decode);
    assert_eq!(task.phase(), FramePhase::Decoding);
}

#[test]
fn responses_follow_the_order_of_the_commands() {
    let mut task = FrameTask::new();
    let mut action = task.step(FrameEvent::Started);
    let answers = ["200\n", "", "201\n", "200 hi. Use UDP port 5000\n"];
    let mut written: Vec<String> = Vec::new();
    let mut decodes = 0;
    for answer in answers {
        assert_eq!(action, FrameAction::Decode);
        decodes += 1;
        assert_eq!(task.step(FrameEvent::Decoded(FtlCommand::Ping)), FrameAction::Forward(FtlCommand::Ping));
        assert_eq!(task.step(FrameEvent::Completed), FrameAction::Await);
        match task.step(FrameEvent::Instruction(send(&[answer]))) {
            FrameAction::Write(piece) => written.push(piece),
            other => panic!("unexpected action {:?}", other),
        }
        action = task.step(FrameEvent::Completed);
    }
    assert_eq!(action, FrameAction::Decode);
    assert_eq!(decodes, 4);
    assert_eq!(written, answers);
}

#[test]
fn first_write_failure_stops_the_task() {
    let mut task = awaiting();
    assert_eq!(task.step(FrameEvent::Instruction(send(&["a", "b", "c"]))), write("a"));
    assert_eq!(task.step(FrameEvent::Completed), write("b"));
    assert_eq!(task.step(FrameEvent::Failed), FrameAction::Stop);
    assert_eq!(task.phase(), FramePhase::Stopped);
    assert_eq!(task.step(FrameEvent::Completed), FrameAction::Stop);
}

#[test]
fn decode_failure_stops_the_task() {
    let mut task = FrameTask::new();
    task.step(FrameEvent::Started);
    assert_eq!(task.step(FrameEvent::Failed), FrameAction::Stop);
    assert_eq!(task.phase(), FramePhase::Stopped);
}

#[test]
fn closed_forward_channel_stops_the_task() {
    let mut task = FrameTask::new();
    task.step(FrameEvent::Started);
    task.step(FrameEvent::Decoded(FtlCommand::Dot));
    assert_eq!(task.step(FrameEvent::Failed), FrameAction::Stop);
}

#[test]
fn missing_instruction_stops_the_task() {
    let mut task = awaiting();
    assert_eq!(task.step(FrameEvent::Failed), FrameAction::Stop);
    assert_eq!(task.phase(), FramePhase::Stopped);
}

#[test]
fn handle_frame_command_writes_the_pieces_first_to_last() {
    let mut task = awaiting();
    let data = ["200 ", "00ff", "\n"];
    let mut sent: Vec<String> = Vec::new();
    let mut action = task.handle_frame_command(Some(send(&data)));
    while let FrameAction::Write(piece) = action {
        sent.push(piece);
        action = task.step(FrameEvent::Completed);
    }
    assert_eq!(sent, data);
    assert_eq!(action, FrameAction::Decode);
    assert_eq!(task.phase(), FramePhase::Decoding);
}

#[test]
fn handle_frame_command_without_a_command_stops() {
    let mut task = awaiting();
    assert_eq!(task.handle_frame_command(None), FrameAction::Stop);
    assert_eq!(task.phase(), FramePhase::Stopped);
}

#[test]
fn handle_frame_command_out_of_turn_stops() {
    let mut task = FrameTask::new();
    task.step(FrameEvent::Started);
    assert_eq!(task.handle_frame_command(Some(send(&["x"]))), FrameAction::Stop);
    assert_eq!(task.phase(), FramePhase::Stopped);
}

#[test]
fn writing_starts_with_the_first_piece() {
    let mut task = awaiting();
    assert_eq!(task.step(FrameEvent::Instruction(send(&["x", "y"]))), write("x"));
    assert_eq!(task.step(FrameEvent::Completed), write("y"));
    assert_eq!(task.step(FrameEvent::Completed), FrameAction::Decode);
}

#[test]
fn no_command_is_decoded_while_a_response_is_pending() {
    let mut task = awaiting();
    assert_eq!(task.step(FrameEvent::Decoded(FtlCommand::Ping)), FrameAction::Stop);
    let mut task = awaiting();
    task.step(FrameEvent::Instruction(send(&["a", "b"])));
    assert_eq!(task.step(FrameEvent::Decoded(FtlCommand::Ping)), FrameAction::Stop);
}

#[test]
fn a_stopped_task_stays_stopped() {
    let mut task = FrameTask::new();
    assert_eq!(task.step(FrameEvent::Completed), FrameAction::Stop);
    for event in [
        FrameEvent::Started,
        FrameEvent::Decoded(FtlCommand::HMAC),
        FrameEvent::Instruction(send(&["a"])),
        FrameEvent::Completed,
        FrameEvent::Failed,
    ] {
        assert_eq!(task.step(event), FrameAction::Stop);
        assert_eq!(task.phase(), FramePhase::Stopped);
    }
}
