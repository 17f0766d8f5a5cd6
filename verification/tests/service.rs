use nx::ipc::codec::{decode, encode};
use nx::ipc::command::CommandMetadata;
use nx::ipc::context::{Argument, CommandContext};
use nx::ipc::message::{BufferDescriptor, Command, Message, Protocol};
use nx::ipc::server::IObject;
use nx::ipc::sf::{
    CopyHandle, InAutoSelectBuffer, InPointerBuffer, MoveHandle, ObjectInfo, OutMapAliasBuffer,
    ProcessId, Session,
};
use nx::result::{invalid_output, unsupported_operation, ResultCode};
use nx::service::hid::{AppletResource, HidServer};
use nx::service::lm::{LogService, Logger};
use nx::service::mii::{CharInfo, DatabaseService, StaticService};
use nx::service::{request, IClientObject, INamedService};

fn response(status: u32, outputs: Vec<Argument>) -> Vec<u8> {
    let mut ctx = CommandContext::new(
        ObjectInfo::new(),
        Protocol::Cmif,
        Command::Response { status: ResultCode::new(status) },
    );
    ctx.push_all(&outputs);
    encode(Protocol::Cmif, &ctx.message).unwrap()
}

fn sent(bytes: Vec<u8>) -> Message {
    decode(Protocol::Cmif, &bytes).unwrap()
}

fn plain(rq_id: u32, command_fn: u32) -> CommandMetadata {
    CommandMetadata::new(rq_id, command_fn, None, None)
}

#[test]
fn the_log_service_opens_a_logger() {
    let service = LogService::new(Session::from_handle(3));
    let m = sent(service.open_logger_request(ProcessId::new()).unwrap());
    assert_eq!(m.command, Command::Request { id: 0 });
    assert_eq!(m.process_id, Some(0));
    assert!(m.payload.is_empty());

    let reply = response(0, vec![Argument::MoveHandle(MoveHandle::from(0x99))]);
    let mut logger = service.open_logger_response(&reply).ok().unwrap();
    assert_eq!(
        logger.get_session().info(),
        &ObjectInfo { handle: 0x99, domain_object_id: None, owns_handle: true }
    );
    let failure = response(ResultCode::from_parts(5, 6).get_value(), vec![]);
    assert_eq!(service.open_logger_response(&failure).err(), Some(ResultCode::from_parts(5, 6)));
    let empty = response(0, vec![]);
    assert_eq!(service.open_logger_response(&empty).err(), Some(invalid_output()));
}

#[test]
fn the_logger_sends_its_buffer_and_its_destination() {
    let logger = Logger::new(Session::from_handle(4));
    let m = sent(logger.log_request(InAutoSelectBuffer::from_const(0x7000, 24)).unwrap());
    assert_eq!(m.command, Command::Request { id: 0 });
    assert_eq!(m.buffers, vec![BufferDescriptor { attribute: 33, address: 0x7000, size: 24 }]);
    let m = sent(logger.set_destination_request(0xffff).unwrap());
    assert_eq!(m.command, Command::Request { id: 1 });
    assert_eq!(m.payload, vec![0xff, 0xff, 0, 0]);
    assert_eq!(logger.status_response(&response(0, vec![])), Ok(()));
    assert_eq!(logger.status_response(&response(7, vec![])), Err(ResultCode::new(7)));
}

#[test]
fn the_input_service_orders_its_arguments_as_the_service_expects() {
    let hid = HidServer::new(Session::from_handle(5));
    let aruid = ProcessId::new();
    let m = sent(hid.create_applet_resource_request(aruid).unwrap());
    assert_eq!((m.command, m.process_id), (Command::Request { id: 0 }, Some(0)));
    let m = sent(hid.set_supported_npad_style_set_request(aruid, 0x1f).unwrap());
    assert_eq!((m.command, m.process_id), (Command::Request { id: 100 }, Some(0)));
    assert_eq!(m.payload, vec![0x1f, 0, 0, 0]);
    let m = sent(
        hid.set_supported_npad_id_type_request(aruid, InPointerBuffer::from_const(0x100, 8)).unwrap(),
    );
    assert_eq!((m.command, m.process_id), (Command::Request { id: 102 }, Some(0)));
    assert_eq!(m.buffers, vec![BufferDescriptor { attribute: 9, address: 0x100, size: 8 }]);
    let m = sent(hid.activate_npad_request(aruid).unwrap());
    assert_eq!((m.command, m.process_id), (Command::Request { id: 103 }, Some(0)));
    let m = sent(hid.deactivate_npad_request(aruid).unwrap());
    assert_eq!((m.command, m.process_id), (Command::Request { id: 104 }, Some(0)));
    let m = sent(hid.set_npad_joy_assignment_mode_single_request(aruid, 2, 1).unwrap());
    assert_eq!((m.command, m.process_id), (Command::Request { id: 123 }, Some(0)));
    assert_eq!(m.payload, vec![2, 0, 0, 0, 1, 0, 0, 0]);
    let m = sent(hid.set_npad_joy_assignment_mode_dual_request(aruid, 3).unwrap());
    assert_eq!((m.command, m.process_id), (Command::Request { id: 124 }, Some(0)));
    assert_eq!(m.payload, vec![3, 0, 0, 0]);
    assert_eq!(hid.status_response(&response(0, vec![])), Ok(()));

    let reply = response(0, vec![Argument::MoveHandle(MoveHandle::from(0x42))]);
    let resource: AppletResource = hid.create_applet_resource_response(&reply).ok().unwrap();
    let m = sent(resource.get_shared_memory_handle_request().unwrap());
    assert_eq!(m.command, Command::Request { id: 0 });
    let reply = response(0, vec![Argument::CopyHandle(CopyHandle::from(0x77))]);
    assert_eq!(resource.get_shared_memory_handle_response(&reply), Ok(CopyHandle::from(0x77)));
    let reply = response(0, vec![Argument::MoveHandle(MoveHandle::from(0x77))]);
    assert_eq!(resource.get_shared_memory_handle_response(&reply), Err(invalid_output()));
}

#[test]
fn the_profile_database_reads_its_answers() {
    let entry = StaticService::new(Session::from_handle(6));
    let m = sent(entry.get_database_service_request(0xa523_b78f).unwrap());
    assert_eq!(m.command, Command::Request { id: 0 });
    assert_eq!(m.payload, vec![0x8f, 0xb7, 0x23, 0xa5]);
    let reply = response(0, vec![Argument::MoveHandle(MoveHandle::from(0x31))]);
    let database: DatabaseService = entry.get_database_service_response(&reply).ok().unwrap();

    let m = sent(database.is_updated_request(1).unwrap());
    assert_eq!((m.command, m.payload), (Command::Request { id: 0 }, vec![1, 0, 0, 0]));
    let m = sent(database.is_full_request().unwrap());
    assert_eq!((m.command, m.payload), (Command::Request { id: 1 }, vec![]));
    let m = sent(database.get_count_request(2).unwrap());
    assert_eq!((m.command, m.payload), (Command::Request { id: 2 }, vec![2, 0, 0, 0]));
    let m = sent(database.get_1_request(3, OutMapAliasBuffer::from_mut(0x9000, 0x58)).unwrap());
    assert_eq!((m.command, m.payload), (Command::Request { id: 4 }, vec![3, 0, 0, 0]));
    assert_eq!(m.buffers, vec![BufferDescriptor { attribute: 6, address: 0x9000, size: 0x58 }]);
    let m = sent(database.build_random_request(1, 2, 3).unwrap());
    assert_eq!(m.command, Command::Request { id: 6 });
    assert_eq!(m.payload, vec![1, 0, 0, 0, 2, 0, 0, 0, 3, 0, 0, 0]);

    assert_eq!(database.flag_response(&response(0, vec![Argument::Bool(true)])), Ok(true));
    assert_eq!(database.flag_response(&response(0, vec![Argument::Bool(false)])), Ok(false));
    assert_eq!(database.flag_response(&response(0, vec![])), Err(invalid_output()));
    assert_eq!(database.count_response(&response(0, vec![Argument::U32(17)])), Ok(17));
    assert_eq!(database.count_response(&response(9, vec![Argument::U32(17)])), Err(ResultCode::new(9)));

    let record: Vec<Argument> = (0..0x58).map(|i| Argument::U8(i as u8)).collect();
    let mut longer = record.clone();
    longer.push(Argument::U8(0xff));
    let expected = CharInfo { data: (0..0x58).map(|i| i as u8).collect() };
    assert_eq!(database.build_random_response(&response(0, record)), Ok(expected));
    assert_eq!(
        database.build_random_response(&response(0, longer)).map(|info| info.data.len()),
        Ok(0x58)
    );
    assert_eq!(database.build_random_response(&response(0, vec![Argument::U8(1); 0x57])), Err(invalid_output()));
    assert_eq!(database.build_random_response(&response(3, vec![])), Err(ResultCode::new(3)));
}

#[test]
fn services_are_found_by_name_and_are_no_domains() {
    assert_eq!(LogService::get_name(), "lm\0");
    assert_eq!(HidServer::get_name(), "hid\0");
    assert_eq!(StaticService::get_name(), "mii:e\0");
    assert!(!LogService::as_domain());
    assert!(!HidServer::as_domain());
    assert!(!StaticService::as_domain());
    assert_eq!(LogService::new(Session::new()).post_initialize(), Ok(()));
    assert_eq!(HidServer::new(Session::new()).post_initialize(), Ok(()));
    assert_eq!(StaticService::new(Session::new()).post_initialize(), Ok(()));
}

#[test]
fn proxies_declare_their_command_tables() {
    assert_eq!(Logger::new(Session::new()).get_command_table(), vec![plain(0, 0), plain(1, 1)]);
    assert_eq!(LogService::new(Session::new()).get_command_table(), vec![plain(0, 0)]);
    assert_eq!(AppletResource::new(Session::new()).get_command_table(), vec![plain(1, 0)]);
    assert_eq!(
        HidServer::new(Session::new()).get_command_table(),
        vec![
            plain(0, 0),
            plain(100, 1),
            plain(102, 2),
            plain(103, 3),
            plain(104, 4),
            plain(123, 5),
            plain(124, 6)
        ]
    );
    assert_eq!(
        DatabaseService::new(Session::new()).get_command_table(),
        vec![plain(0, 0), plain(1, 1), plain(2, 2), plain(4, 3), plain(6, 4)]
    );
    assert_eq!(StaticService::new(Session::new()).get_command_table(), vec![plain(0, 0)]);
}

#[test]
fn a_proxy_speaks_the_protocol_of_its_session_and_addresses_its_object() {
    let info = ObjectInfo::from_domain_object_id(3, 12);
    let logger = Logger::new(Session::with_protocol(info, Protocol::Cmif));
    assert_eq!(sent(logger.set_destination_request(1).unwrap()).domain_object_id, Some(12));
    let info = ObjectInfo::from_domain_object_id(3, 12);
    let logger = Logger::new(Session::with_protocol(info, Protocol::Tipc));
    assert_eq!(logger.set_destination_request(1), Err(unsupported_operation()));
    let session = Session::with_protocol(ObjectInfo::from_handle(3), Protocol::Tipc);
    assert_eq!(
        request(&session, 2, &vec![Argument::U8(7)]),
        Ok(vec![18, 0, 0, 0, 0, 0, 0, 0, 1, 0, 0, 0, 7])
    );
}
